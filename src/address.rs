use vstd::prelude::*;
use crate::identity::{Identity, IDENTITY_LEN};

verus! {

/// Namespace tag of blog records.
pub const BLOG_TAG: u8 = 1;

/// Namespace tag of comment records.
pub const COMMENT_TAG: u8 = 2;

/// Namespace tag of author profiles.
pub const AUTHOR_INFO_TAG: u8 = 3;

/// Namespace tag of the counter.
pub const COUNTER_TAG: u8 = 4;

/// The UTF-8 bytes of a string.
pub open spec fn bytes_of(s: Seq<char>) -> Seq<u8> {
    vstd::utf8::encode_utf8(s)
}

/// Length of a string in bytes.
pub open spec fn byte_len(s: Seq<char>) -> nat {
    bytes_of(s).len()
}

/// The storage address of the record of kind `tag`, owned by `owner`, with
/// id bytes `id`: the tag, then the owner's bytes, then the id's bytes.
pub open spec fn address_of(tag: u8, owner: Seq<u8>, id: Seq<u8>) -> Seq<u8> {
    seq![tag] + owner + id
}

/// Derives the address of a record from its kind, owner and id.
pub fn derive_address(tag: u8, owner: &Identity, id: &str) -> (r: Vec<u8>)
    ensures
        r@ == address_of(tag, owner@, bytes_of(id@)),
{
    let mut r: Vec<u8> = Vec::new();
    r.push(tag);
    let mut i: usize = 0;
    while i < IDENTITY_LEN
        invariant
            i <= IDENTITY_LEN,
            owner@.len() == IDENTITY_LEN,
            r@ == seq![tag] + owner@.subrange(0, i as int),
        decreases IDENTITY_LEN - i,
    {
        r.push(owner.bytes[i]);
        assert(owner@.subrange(0, i + 1) == owner@.subrange(0, i as int).push(owner@[i as int]));
        i = i + 1;
    }
    assert(owner@.subrange(0, IDENTITY_LEN as int) == owner@);
    let b = id.as_bytes();
    let mut j: usize = 0;
    while j < b.len()
        invariant
            j <= b@.len(),
            b@ == bytes_of(id@),
            r@ == seq![tag] + owner@ + b@.subrange(0, j as int),
        decreases b@.len() - j,
    {
        r.push(b[j]);
        assert(b@.subrange(0, j + 1) == b@.subrange(0, j as int).push(b@[j as int]));
        j = j + 1;
    }
    assert(b@.subrange(0, b@.len() as int) == b@);
    r
}

/// Address derivation is injective: two addresses are equal only when they
/// were derived from the same tag, the same owner and the same id bytes.
pub proof fn lemma_address_injective(
    tag1: u8,
    owner1: Seq<u8>,
    id1: Seq<u8>,
    tag2: u8,
    owner2: Seq<u8>,
    id2: Seq<u8>,
)
    requires
        owner1.len() == IDENTITY_LEN,
        owner2.len() == IDENTITY_LEN,
        address_of(tag1, owner1, id1) == address_of(tag2, owner2, id2),
    ensures
        tag1 == tag2,
        owner1 == owner2,
        id1 == id2,
{
    let a = address_of(tag1, owner1, id1);
    let b = address_of(tag2, owner2, id2);
    assert(a[0] == tag1);
    assert(b[0] == tag2);
    assert(owner1 =~= a.subrange(1, 33));
    assert(owner2 =~= b.subrange(1, 33));
    assert(id1 =~= a.subrange(33, a.len() as int));
    assert(id2 =~= b.subrange(33, b.len() as int));
}

/// Distinct strings have distinct UTF-8 bytes.
pub proof fn lemma_bytes_of_injective(a: Seq<char>, b: Seq<char>)
    requires
        bytes_of(a) == bytes_of(b),
    ensures
        a == b,
{
    vstd::utf8::encode_utf8_decode_utf8(a);
    vstd::utf8::encode_utf8_decode_utf8(b);
}

/// Records with different kinds, owners or ids never share an address.
pub proof fn lemma_key_injective(
    tag1: u8,
    owner1: Seq<u8>,
    id1: Seq<char>,
    tag2: u8,
    owner2: Seq<u8>,
    id2: Seq<char>,
)
    requires
        owner1.len() == IDENTITY_LEN,
        owner2.len() == IDENTITY_LEN,
        address_of(tag1, owner1, bytes_of(id1)) == address_of(tag2, owner2, bytes_of(id2)),
    ensures
        tag1 == tag2,
        owner1 == owner2,
        id1 == id2,
{
    lemma_address_injective(tag1, owner1, bytes_of(id1), tag2, owner2, bytes_of(id2));
    lemma_bytes_of_injective(id1, id2);
}

} // verus!
