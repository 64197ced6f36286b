use vstd::prelude::*;
use crate::record::{home_address, record_wf, Record, RecordView};

verus! {

/// Why an operation on the store failed. A failed operation changes nothing.
#[derive(Clone, Copy, Debug, PartialEq, Eq, Structural)]
pub enum StoreError {
    /// A record already occupies the address.
    AlreadyExists,
    /// No record of the requested kind is at the address.
    NotFound,
    /// The caller is not the record's owner.
    Unauthorized,
    /// A string field is longer than its declared maximum.
    FieldTooLong,
    /// A content slot index is past the last slot.
    IndexOutOfBounds,
    /// A counter would leave the range of its type.
    ArithmeticOverflow,
}

/// What the store holds: the record at each occupied address.
pub type StoreMap = Map<Seq<u8>, RecordView>;

/// Every record of `m` has its kind's shape and sits at the address derived
/// from its own kind, owner and id.
pub open spec fn well_shaped(m: StoreMap) -> bool {
    forall|a: Seq<u8>| #[trigger] m.contains_key(a) ==> record_wf(m[a]) && a == home_address(m[a])
}

/// The address in an operation's result.
pub open spec fn address_result(r: Result<Vec<u8>, StoreError>) -> Result<Seq<u8>, StoreError> {
    match r {
        Ok(a) => Ok(a@),
        Err(e) => Err(e),
    }
}

/// One occupied address and its record.
pub struct Entry {
    address: Vec<u8>,
    record: Record,
}

/// A store of records keyed by derived addresses.
pub struct RecordStore {
    entries: Vec<Entry>,
    contents: Ghost<StoreMap>,
}

impl View for RecordStore {
    type V = StoreMap;

    closed spec fn view(&self) -> StoreMap {
        self.contents@
    }
}

/// Compares two byte strings.
fn same_bytes(a: &Vec<u8>, b: &Vec<u8>) -> (r: bool)
    ensures
        r == (a@ == b@),
{
    if a.len() != b.len() {
        return false;
    }
    let mut i: usize = 0;
    while i < a.len()
        invariant
            i <= a@.len(),
            a@.len() == b@.len(),
            forall|k: int| 0 <= k < i ==> a@[k] == b@[k],
        decreases a@.len() - i,
    {
        if a[i] != b[i] {
            return false;
        }
        i = i + 1;
    }
    assert(a@ =~= b@);
    true
}

impl RecordStore {
    /// The store's internal consistency: addresses are unique and the
    /// entries hold exactly what the view says.
    pub closed spec fn wf(&self) -> bool {
        &&& forall|i: int, j: int|
            0 <= i < j < self.entries@.len() ==> #[trigger] self.entries@[i].address@
                != #[trigger] self.entries@[j].address@
        &&& forall|i: int|
            0 <= i < self.entries@.len() ==> {
                &&& self.contents@.contains_key(#[trigger] self.entries@[i].address@)
                &&& self.contents@[self.entries@[i].address@] == self.entries@[i].record@
            }
        &&& forall|a: Seq<u8>|
            #[trigger] self.contents@.contains_key(a) ==> exists|i: int|
                0 <= i < self.entries@.len() && #[trigger] self.entries@[i].address@ == a
        &&& well_shaped(self.contents@)
    }

    /// Every record of a consistent store has its kind's shape.
    pub proof fn lemma_well_shaped(&self)
        requires
            self.wf(),
        ensures
            well_shaped(self@),
    {
    }

    /// An empty store.
    pub fn new() -> (r: RecordStore)
        ensures
            r.wf(),
            r@ == StoreMap::empty(),
    {
        RecordStore { entries: Vec::new(), contents: Ghost(Map::empty()) }
    }

    /// The number of stored records.
    pub fn len(&self) -> (r: usize)
        requires
            self.wf(),
        ensures
            r == self@.len(),
    {
        proof {
            self.lemma_domain_len();
        }
        self.entries.len()
    }

    proof fn lemma_domain_len(&self)
        requires
            self.wf(),
        ensures
            self@.dom().finite(),
            self@.len() == self.entries@.len(),
    {
        let addrs = Seq::new(self.entries@.len(), |i: int| self.entries@[i].address@);
        assert(addrs.no_duplicates());
        assert(self@.dom() =~= addrs.to_set()) by {
            assert forall|a: Seq<u8>| self@.dom().contains(a) implies addrs.to_set().contains(a) by {
                let i = choose|i: int|
                    0 <= i < self.entries@.len() && #[trigger] self.entries@[i].address@ == a;
                assert(addrs[i] == a);
            }
            assert forall|a: Seq<u8>| addrs.to_set().contains(a) implies self@.dom().contains(a) by {
                let i = choose|i: int| 0 <= i < addrs.len() && addrs[i] == a;
                assert(self.entries@[i].address@ == a);
            }
        }
        addrs.unique_seq_to_set();
    }

    /// The position of the entry at `addr`, if any.
    fn find(&self, addr: &Vec<u8>) -> (r: Option<usize>)
        requires
            self.wf(),
        ensures
            match r {
                Some(i) => i < self.entries@.len() && self.entries@[i as int].address@ == addr@,
                None => !self@.contains_key(addr@),
            },
    {
        let mut i: usize = 0;
        while i < self.entries.len()
            invariant
                self.wf(),
                i <= self.entries@.len(),
                forall|k: int| 0 <= k < i ==> self.entries@[k].address@ != addr@,
            decreases self.entries@.len() - i,
        {
            if same_bytes(&self.entries[i].address, addr) {
                return Some(i);
            }
            i = i + 1;
        }
        None
    }

    /// The record at `addr`, if any.
    pub(crate) fn lookup(&self, addr: &Vec<u8>) -> (r: Option<&Record>)
        requires
            self.wf(),
        ensures
            match r {
                Some(rec) => self@.contains_key(addr@) && self@[addr@] == rec@,
                None => !self@.contains_key(addr@),
            },
    {
        match self.find(addr) {
            Some(i) => Some(&self.entries[i].record),
            None => None,
        }
    }

    /// Stores `record` at the unoccupied address `addr`.
    pub(crate) fn insert_new(&mut self, addr: Vec<u8>, record: Record)
        requires
            old(self).wf(),
            !old(self)@.contains_key(addr@),
            record_wf(record@),
            addr@ == home_address(record@),
        ensures
            final(self).wf(),
            final(self)@ == old(self)@.insert(addr@, record@),
    {
        let ghost a = addr@;
        let ghost v = record@;
        let ghost old_entries = self.entries@;
        self.entries.push(Entry { address: addr, record });
        self.contents = Ghost(self.contents@.insert(a, v));
        assert forall|b: Seq<u8>| #[trigger] self.contents@.contains_key(b) implies exists|i: int|
            0 <= i < self.entries@.len() && #[trigger] self.entries@[i].address@ == b by {
            if b == a {
                assert(self.entries@[old_entries.len() as int].address@ == b);
            } else {
                let i = choose|i: int|
                    0 <= i < old_entries.len() && #[trigger] old_entries[i].address@ == b;
                assert(self.entries@[i].address@ == b);
            }
        }
    }

    /// Replaces the record at the occupied address `addr`.
    pub(crate) fn replace(&mut self, addr: &Vec<u8>, record: Record)
        requires
            old(self).wf(),
            old(self)@.contains_key(addr@),
            record_wf(record@),
            addr@ == home_address(record@),
        ensures
            final(self).wf(),
            final(self)@ == old(self)@.insert(addr@, record@),
    {
        let i = match self.find(addr) {
            Some(i) => i,
            None => {
                return;
            },
        };
        let ghost a = addr@;
        let ghost v = record@;
        let ghost old_entries = self.entries@;
        let address = self.entries[i].address.clone();
        self.entries.set(i, Entry { address, record });
        self.contents = Ghost(self.contents@.insert(a, v));
        assert forall|b: Seq<u8>| #[trigger] self.contents@.contains_key(b) implies exists|j: int|
            0 <= j < self.entries@.len() && #[trigger] self.entries@[j].address@ == b by {
            let j = choose|j: int|
                0 <= j < old_entries.len() && #[trigger] old_entries[j].address@ == b;
            assert(self.entries@[j].address@ == b);
        }
    }

    /// Frees the occupied address `addr`.
    pub(crate) fn remove(&mut self, addr: &Vec<u8>)
        requires
            old(self).wf(),
            old(self)@.contains_key(addr@),
        ensures
            final(self).wf(),
            final(self)@ == old(self)@.remove(addr@),
    {
        let i = match self.find(addr) {
            Some(i) => i,
            None => {
                return;
            },
        };
        let ghost a = addr@;
        let ghost old_entries = self.entries@;
        let _ = self.entries.remove(i);
        self.contents = Ghost(self.contents@.remove(a));
        assert forall|k: int| 0 <= k < self.entries@.len() implies {
            &&& self.contents@.contains_key(#[trigger] self.entries@[k].address@)
            &&& self.contents@[self.entries@[k].address@] == self.entries@[k].record@
        } by {
            if k < i {
                assert(self.entries@[k] == old_entries[k]);
            } else {
                assert(self.entries@[k] == old_entries[k + 1]);
            }
        }
        assert forall|b: Seq<u8>| #[trigger] self.contents@.contains_key(b) implies exists|j: int|
            0 <= j < self.entries@.len() && #[trigger] self.entries@[j].address@ == b by {
            let j = choose|j: int|
                0 <= j < old_entries.len() && #[trigger] old_entries[j].address@ == b;
            if j < i {
                assert(self.entries@[j].address@ == b);
            } else {
                assert(self.entries@[j - 1].address@ == b);
            }
        }
    }
}

} // verus!
