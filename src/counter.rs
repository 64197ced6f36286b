use vstd::prelude::*;
use crate::address::COUNTER_TAG;
use crate::record::{Record, RecordView};
use crate::store::{address_result, RecordStore, StoreError, StoreMap};

verus! {

/// A byte-sized counter that refuses to wrap. The store keeps one, at a
/// fixed address with neither owner nor id.
#[derive(Debug)]
pub struct Counter {
    count: u8,
}

/// What `increment` returns, and the count it leaves.
pub open spec fn increment_outcome(c: u8) -> (Result<(), StoreError>, u8) {
    if c == u8::MAX {
        (Err(StoreError::ArithmeticOverflow), c)
    } else {
        (Ok(()), (c + 1) as u8)
    }
}

/// What `decrement` returns, and the count it leaves.
pub open spec fn decrement_outcome(c: u8) -> (Result<(), StoreError>, u8) {
    if c == 0 {
        (Err(StoreError::ArithmeticOverflow), c)
    } else {
        (Ok(()), (c - 1) as u8)
    }
}

impl Counter {
    pub closed spec fn value(&self) -> u8 {
        self.count
    }

    /// A counter at zero.
    pub fn new() -> (r: Counter)
        ensures
            r.value() == 0,
    {
        Counter { count: 0 }
    }

    pub fn count(&self) -> (r: u8)
        ensures
            r == self.value(),
    {
        self.count
    }

    /// Adds one; fails at the largest count.
    pub fn increment(&mut self) -> (r: Result<(), StoreError>)
        ensures
            (r, final(self).value()) == increment_outcome(old(self).value()),
    {
        match self.count.checked_add(1) {
            Some(n) => {
                self.count = n;
                Ok(())
            },
            None => Err(StoreError::ArithmeticOverflow),
        }
    }

    /// Takes one away; fails at zero.
    pub fn decrement(&mut self) -> (r: Result<(), StoreError>)
        ensures
            (r, final(self).value()) == decrement_outcome(old(self).value()),
    {
        match self.count.checked_sub(1) {
            Some(n) => {
                self.count = n;
                Ok(())
            },
            None => Err(StoreError::ArithmeticOverflow),
        }
    }
}

/// The counter's fixed address.
pub open spec fn counter_address() -> Seq<u8> {
    seq![COUNTER_TAG]
}

/// The stored count in `m`.
pub open spec fn count_at(m: StoreMap) -> Result<u8, StoreError> {
    if !m.contains_key(counter_address()) {
        Err(StoreError::NotFound)
    } else {
        match m[counter_address()] {
            RecordView::Counter(c) => Ok(c),
            _ => Err(StoreError::NotFound),
        }
    }
}

/// What `create_counter` returns, and the store it leaves.
pub open spec fn create_counter_outcome(m: StoreMap) -> (Result<Seq<u8>, StoreError>, StoreMap) {
    if m.contains_key(counter_address()) {
        (Err(StoreError::AlreadyExists), m)
    } else {
        (Ok(counter_address()), m.insert(counter_address(), RecordView::Counter(0)))
    }
}

/// The result and the store after a step of the stored counter whose own
/// outcome is `step`: the new count is stored only when the step succeeds.
pub open spec fn stepped(m: StoreMap, step: (Result<(), StoreError>, u8)) -> (
    Result<(), StoreError>,
    StoreMap,
) {
    if step.0 is Ok {
        (Ok(()), m.insert(counter_address(), RecordView::Counter(step.1)))
    } else {
        (step.0, m)
    }
}

/// What `increment_counter` returns, and the store it leaves.
pub open spec fn increment_counter_outcome(m: StoreMap) -> (Result<(), StoreError>, StoreMap) {
    match count_at(m) {
        Err(e) => (Err(e), m),
        Ok(c) => stepped(m, increment_outcome(c)),
    }
}

/// What `decrement_counter` returns, and the store it leaves.
pub open spec fn decrement_counter_outcome(m: StoreMap) -> (Result<(), StoreError>, StoreMap) {
    match count_at(m) {
        Err(e) => (Err(e), m),
        Ok(c) => stepped(m, decrement_outcome(c)),
    }
}

/// The counter's address.
fn counter_slot() -> (r: Vec<u8>)
    ensures
        r@ == counter_address(),
{
    let mut r: Vec<u8> = Vec::new();
    r.push(COUNTER_TAG);
    assert(r@ =~= counter_address());
    r
}

/// Stores a counter at zero.
pub fn create_counter(store: &mut RecordStore) -> (r: Result<Vec<u8>, StoreError>)
    requires
        old(store).wf(),
    ensures
        final(store).wf(),
        address_result(r) == create_counter_outcome(old(store)@).0,
        final(store)@ == create_counter_outcome(old(store)@).1,
{
    let addr = counter_slot();
    if store.lookup(&addr).is_some() {
        return Err(StoreError::AlreadyExists);
    }
    store.insert_new(addr, Record::Counter(Counter::new()));
    Ok(counter_slot())
}

/// The stored count.
pub fn get_count(store: &RecordStore) -> (r: Result<u8, StoreError>)
    requires
        store.wf(),
    ensures
        r == count_at(store@),
{
    let addr = counter_slot();
    match store.lookup(&addr) {
        Some(Record::Counter(c)) => Ok(c.count()),
        _ => Err(StoreError::NotFound),
    }
}

/// Adds one to the stored counter; fails at the largest count.
pub fn increment_counter(store: &mut RecordStore) -> (r: Result<(), StoreError>)
    requires
        old(store).wf(),
    ensures
        final(store).wf(),
        (r, final(store)@) == increment_counter_outcome(old(store)@),
{
    let mut c = match get_count(store) {
        Ok(n) => Counter { count: n },
        Err(e) => {
            return Err(e);
        },
    };
    match c.increment() {
        Ok(()) => {
            let addr = counter_slot();
            store.replace(&addr, Record::Counter(c));
            Ok(())
        },
        Err(e) => Err(e),
    }
}

/// Takes one from the stored counter; fails at zero.
pub fn decrement_counter(store: &mut RecordStore) -> (r: Result<(), StoreError>)
    requires
        old(store).wf(),
    ensures
        final(store).wf(),
        (r, final(store)@) == decrement_counter_outcome(old(store)@),
{
    let mut c = match get_count(store) {
        Ok(n) => Counter { count: n },
        Err(e) => {
            return Err(e);
        },
    };
    match c.decrement() {
        Ok(()) => {
            let addr = counter_slot();
            store.replace(&addr, Record::Counter(c));
            Ok(())
        },
        Err(e) => Err(e),
    }
}

} // verus!
