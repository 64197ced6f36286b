use vstd::prelude::*;
use crate::address::{address_of, byte_len, bytes_of, derive_address, AUTHOR_INFO_TAG};
use crate::identity::Identity;
use crate::record::{fits, AuthorInfo, AuthorInfoView, Record, RecordView, MAX_INTRO_LEN};
use crate::store::{address_result, RecordStore, StoreError, StoreMap};

verus! {

/// The caller of `create_author_info`, whose profile it creates.
pub struct CreateAuthorInfo {
    pub signer: Identity,
}

/// The caller of `update_author_info`, and the owner whose profile is
/// addressed.
pub struct UpdateAuthorInfo {
    pub signer: Identity,
    pub owner: Identity,
}

/// The caller of `delete_author_info`, and the owner whose profile is
/// addressed.
pub struct DeleteAuthorInfo {
    pub signer: Identity,
    pub owner: Identity,
}

/// The address of `owner`'s profile: it has no id of its own.
pub open spec fn author_info_address(owner: Seq<u8>) -> Seq<u8> {
    address_of(AUTHOR_INFO_TAG, owner, bytes_of(Seq::<char>::empty()))
}

/// The profile of `owner` in `m`.
pub open spec fn author_info_at(m: StoreMap, owner: Seq<u8>) -> Result<AuthorInfoView, StoreError> {
    let addr = author_info_address(owner);
    if !m.contains_key(addr) {
        Err(StoreError::NotFound)
    } else {
        match m[addr] {
            RecordView::AuthorInfo(a) => Ok(a),
            _ => Err(StoreError::NotFound),
        }
    }
}

/// What `create_author_info` returns, and the store it leaves.
pub open spec fn create_author_info_outcome(m: StoreMap, signer: Seq<u8>, intro: Seq<char>) -> (
    Result<Seq<u8>, StoreError>,
    StoreMap,
) {
    let addr = author_info_address(signer);
    if m.contains_key(addr) {
        (Err(StoreError::AlreadyExists), m)
    } else if byte_len(intro) > MAX_INTRO_LEN {
        (Err(StoreError::FieldTooLong), m)
    } else {
        (Ok(addr), m.insert(addr, RecordView::AuthorInfo(AuthorInfoView { owner: signer, intro })))
    }
}

/// What `update_author_info` returns, and the store it leaves.
pub open spec fn update_author_info_outcome(
    m: StoreMap,
    signer: Seq<u8>,
    owner: Seq<u8>,
    intro: Seq<char>,
) -> (Result<(), StoreError>, StoreMap) {
    match author_info_at(m, owner) {
        Err(e) => (Err(e), m),
        Ok(a) => if a.owner != signer {
            (Err(StoreError::Unauthorized), m)
        } else if byte_len(intro) > MAX_INTRO_LEN {
            (Err(StoreError::FieldTooLong), m)
        } else {
            let na = AuthorInfoView { owner: a.owner, intro };
            (Ok(()), m.insert(author_info_address(owner), RecordView::AuthorInfo(na)))
        },
    }
}

/// What `delete_author_info` returns, and the store it leaves.
pub open spec fn delete_author_info_outcome(m: StoreMap, signer: Seq<u8>, owner: Seq<u8>) -> (
    Result<(), StoreError>,
    StoreMap,
) {
    match author_info_at(m, owner) {
        Err(e) => (Err(e), m),
        Ok(a) => if a.owner != signer {
            (Err(StoreError::Unauthorized), m)
        } else {
            (Ok(()), m.remove(author_info_address(owner)))
        },
    }
}

/// The address of `owner`'s profile.
fn profile_address(owner: &Identity) -> (r: Vec<u8>)
    ensures
        r@ == author_info_address(owner@),
{
    let none = String::new();
    derive_address(AUTHOR_INFO_TAG, owner, none.as_str())
}

/// Creates the signer's profile.
pub fn create_author_info(store: &mut RecordStore, ctx: &CreateAuthorInfo, intro: String) -> (r:
    Result<Vec<u8>, StoreError>)
    requires
        old(store).wf(),
    ensures
        final(store).wf(),
        address_result(r) == create_author_info_outcome(old(store)@, ctx.signer@, intro@).0,
        final(store)@ == create_author_info_outcome(old(store)@, ctx.signer@, intro@).1,
{
    let addr = profile_address(&ctx.signer);
    if store.lookup(&addr).is_some() {
        return Err(StoreError::AlreadyExists);
    }
    if !fits(&intro, MAX_INTRO_LEN) {
        return Err(StoreError::FieldTooLong);
    }
    let created = profile_address(&ctx.signer);
    store.insert_new(addr, Record::AuthorInfo(AuthorInfo { owner: ctx.signer, intro }));
    Ok(created)
}

/// Replaces the introduction of `owner`'s profile; only the owner may do so.
pub fn update_author_info(store: &mut RecordStore, ctx: &UpdateAuthorInfo, intro: String) -> (r:
    Result<(), StoreError>)
    requires
        old(store).wf(),
    ensures
        final(store).wf(),
        (r, final(store)@) == update_author_info_outcome(
            old(store)@,
            ctx.signer@,
            ctx.owner@,
            intro@,
        ),
{
    let existing = match get_author_info(store, &ctx.owner) {
        Ok(a) => a,
        Err(e) => {
            return Err(e);
        },
    };
    if !existing.owner.same_as(&ctx.signer) {
        return Err(StoreError::Unauthorized);
    }
    if !fits(&intro, MAX_INTRO_LEN) {
        return Err(StoreError::FieldTooLong);
    }
    proof {
        store.lemma_well_shaped();
    }
    let addr = profile_address(&ctx.owner);
    store.replace(&addr, Record::AuthorInfo(AuthorInfo { owner: existing.owner, intro }));
    Ok(())
}

/// Removes `owner`'s profile; only the owner may do so.
pub fn delete_author_info(store: &mut RecordStore, ctx: &DeleteAuthorInfo) -> (r: Result<
    (),
    StoreError,
>)
    requires
        old(store).wf(),
    ensures
        final(store).wf(),
        (r, final(store)@) == delete_author_info_outcome(old(store)@, ctx.signer@, ctx.owner@),
{
    let existing = match get_author_info(store, &ctx.owner) {
        Ok(a) => a,
        Err(e) => {
            return Err(e);
        },
    };
    if !existing.owner.same_as(&ctx.signer) {
        return Err(StoreError::Unauthorized);
    }
    let addr = profile_address(&ctx.owner);
    store.remove(&addr);
    Ok(())
}

/// A copy of `owner`'s profile.
pub fn get_author_info(store: &RecordStore, owner: &Identity) -> (r: Result<AuthorInfo, StoreError>)
    requires
        store.wf(),
    ensures
        match r {
            Ok(a) => author_info_at(store@, owner@) == Ok::<AuthorInfoView, StoreError>(a@),
            Err(e) => author_info_at(store@, owner@) == Err::<AuthorInfoView, StoreError>(e),
        },
{
    let addr = profile_address(owner);
    match store.lookup(&addr) {
        Some(Record::AuthorInfo(a)) => Ok(a.duplicate()),
        _ => Err(StoreError::NotFound),
    }
}

} // verus!
