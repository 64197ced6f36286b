use vstd::prelude::*;
use crate::address::{bytes_of, byte_len, AUTHOR_INFO_TAG, BLOG_TAG, COMMENT_TAG, COUNTER_TAG};
use crate::identity::{Identity, IDENTITY_LEN};
use crate::record::{record_wf, strings_view, Record, RecordView, CONTENT_SLOTS, MAX_SLOT_LEN};
use crate::store::RecordStore;

verus! {

/// Bytes reserved for a blog: the tag, the owner, the prefixed id and
/// title, and the slot count with every slot prefixed and full.
pub const BLOG_CAPACITY: usize = 10207;

/// Bytes reserved for a comment: the tag, the owner, and three prefixed
/// strings.
pub const COMMENT_CAPACITY: usize = 609;

/// Bytes reserved for an author profile: the tag, the owner and the
/// prefixed introduction.
pub const AUTHOR_INFO_CAPACITY: usize = 537;

/// Bytes reserved for the counter: the tag and the count.
pub const COUNTER_CAPACITY: usize = 2;

/// `n` as four little-endian bytes.
pub open spec fn le32(n: nat) -> Seq<u8> {
    seq![
        (n % 256) as u8,
        ((n / 256) % 256) as u8,
        ((n / 65536) % 256) as u8,
        ((n / 16777216) % 256) as u8,
    ]
}

/// A string field: its byte length, then its bytes.
pub open spec fn str_field(s: Seq<char>) -> Seq<u8> {
    le32(byte_len(s)) + bytes_of(s)
}

/// The string fields of `v`, one after another.
pub open spec fn slots_field(v: Seq<Seq<char>>) -> Seq<u8>
    decreases v.len(),
{
    if v.len() == 0 {
        Seq::empty()
    } else {
        slots_field(v.drop_last()) + str_field(v.last())
    }
}

/// The persisted form of a record: the kind's tag, the owner, then each
/// field in order, strings prefixed by their length and the blog's slots
/// by their count.
pub open spec fn encoding_of(r: RecordView) -> Seq<u8> {
    match r {
        RecordView::Blog(b) => seq![BLOG_TAG] + b.owner + str_field(b.id) + str_field(b.title)
            + le32(b.content.len()) + slots_field(b.content),
        RecordView::Comment(c) => seq![COMMENT_TAG] + c.owner + str_field(c.id) + str_field(
            c.blog_id,
        ) + str_field(c.content),
        RecordView::AuthorInfo(a) => seq![AUTHOR_INFO_TAG] + a.owner + str_field(a.intro),
        RecordView::Counter(c) => seq![COUNTER_TAG, c],
    }
}

/// The bytes reserved for a record of the kind of `r`.
pub open spec fn capacity_of(r: RecordView) -> nat {
    match r {
        RecordView::Blog(_) => BLOG_CAPACITY as nat,
        RecordView::Comment(_) => COMMENT_CAPACITY as nat,
        RecordView::AuthorInfo(_) => AUTHOR_INFO_CAPACITY as nat,
        RecordView::Counter(_) => COUNTER_CAPACITY as nat,
    }
}

/// Appends `n` as four little-endian bytes.
fn push_le32(out: &mut Vec<u8>, n: u32)
    ensures
        final(out)@ == old(out)@ + le32(n as nat),
{
    out.push((n % 256) as u8);
    out.push(((n / 256) % 256) as u8);
    out.push(((n / 65536) % 256) as u8);
    out.push(((n / 16777216) % 256) as u8);
    assert(final(out)@ =~= old(out)@ + le32(n as nat));
}

/// Appends the bytes of an identity.
fn push_identity(out: &mut Vec<u8>, id: &Identity)
    ensures
        final(out)@ == old(out)@ + id@,
{
    let ghost start = out@;
    let mut i: usize = 0;
    while i < IDENTITY_LEN
        invariant
            i <= IDENTITY_LEN,
            id@.len() == IDENTITY_LEN,
            out@ == start + id@.subrange(0, i as int),
        decreases IDENTITY_LEN - i,
    {
        out.push(id.bytes[i]);
        assert(id@.subrange(0, i + 1) == id@.subrange(0, i as int).push(id@[i as int]));
        i = i + 1;
    }
    assert(id@.subrange(0, IDENTITY_LEN as int) == id@);
}

/// Appends a string field.
fn push_str(out: &mut Vec<u8>, s: &String)
    requires
        byte_len(s@) <= u32::MAX,
    ensures
        final(out)@ == old(out)@ + str_field(s@),
{
    let b = s.as_str().as_bytes();
    push_le32(out, b.len() as u32);
    let ghost start = out@;
    let mut j: usize = 0;
    while j < b.len()
        invariant
            j <= b@.len(),
            b@ == bytes_of(s@),
            out@ == start + b@.subrange(0, j as int),
        decreases b@.len() - j,
    {
        out.push(b[j]);
        assert(b@.subrange(0, j + 1) == b@.subrange(0, j as int).push(b@[j as int]));
        j = j + 1;
    }
    assert(b@.subrange(0, b@.len() as int) == b@);
}

/// The persisted form of `record`.
pub fn encode(record: &Record) -> (r: Vec<u8>)
    requires
        record_wf(record@),
    ensures
        r@ == encoding_of(record@),
{
    let mut out: Vec<u8> = Vec::new();
    match record {
        Record::Blog(b) => {
            out.push(BLOG_TAG);
            push_identity(&mut out, &b.owner);
            push_str(&mut out, &b.id);
            push_str(&mut out, &b.title);
            push_le32(&mut out, b.content.len() as u32);
            let ghost head = out@;
            let ghost slots = b@.content;
            let mut i: usize = 0;
            while i < b.content.len()
                invariant
                    i <= b.content@.len(),
                    slots == strings_view(b.content@),
                    slots.len() == CONTENT_SLOTS,
                    forall|k: int| 0 <= k < slots.len() ==> byte_len(#[trigger] slots[k]) <= MAX_SLOT_LEN,
                    out@ == head + slots_field(slots.subrange(0, i as int)),
                decreases b.content@.len() - i,
            {
                assert(slots[i as int] == b.content@[i as int]@);
                push_str(&mut out, &b.content[i]);
                assert(slots.subrange(0, i + 1).drop_last() == slots.subrange(0, i as int));
                i = i + 1;
            }
            assert(slots.subrange(0, slots.len() as int) == slots);
            assert(out@ =~= encoding_of(record@));
        },
        Record::Comment(c) => {
            out.push(COMMENT_TAG);
            push_identity(&mut out, &c.owner);
            push_str(&mut out, &c.id);
            push_str(&mut out, &c.blog_id);
            push_str(&mut out, &c.content);
            assert(out@ =~= encoding_of(record@));
        },
        Record::AuthorInfo(a) => {
            out.push(AUTHOR_INFO_TAG);
            push_identity(&mut out, &a.owner);
            push_str(&mut out, &a.intro);
            assert(out@ =~= encoding_of(record@));
        },
        Record::Counter(c) => {
            out.push(COUNTER_TAG);
            out.push(c.count());
            assert(out@ =~= encoding_of(record@));
        },
    }
    out
}

proof fn lemma_slots_len(v: Seq<Seq<char>>)
    requires
        forall|k: int| 0 <= k < v.len() ==> byte_len(#[trigger] v[k]) <= MAX_SLOT_LEN,
    ensures
        slots_field(v).len() <= v.len() * (4 + MAX_SLOT_LEN),
    decreases v.len(),
{
    if v.len() > 0 {
        let w = v.drop_last();
        assert forall|k: int| 0 <= k < w.len() implies byte_len(#[trigger] w[k]) <= MAX_SLOT_LEN by {
            assert(w[k] == v[k]);
        }
        lemma_slots_len(w);
        assert(byte_len(v[v.len() - 1]) <= MAX_SLOT_LEN);
    }
}

/// A record that keeps its kind's shape encodes within its kind's capacity.
pub proof fn lemma_encoding_fits(r: RecordView)
    requires
        record_wf(r),
    ensures
        encoding_of(r).len() <= capacity_of(r),
{
    match r {
        RecordView::Blog(b) => {
            lemma_slots_len(b.content);
        },
        _ => {},
    }
}

/// Every record of a consistent store encodes within its kind's capacity.
pub proof fn lemma_stored_records_fit(store: &RecordStore)
    requires
        store.wf(),
    ensures
        forall|a: Seq<u8>| #[trigger] store@.contains_key(a) ==> encoding_of(store@[a]).len()
            <= capacity_of(store@[a]),
{
    store.lemma_well_shaped();
    assert forall|a: Seq<u8>| #[trigger] store@.contains_key(a) implies encoding_of(store@[a]).len()
        <= capacity_of(store@[a]) by {
        lemma_encoding_fits(store@[a]);
    }
}

} // verus!
