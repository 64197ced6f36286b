use vstd::prelude::*;
use crate::address::{address_of, byte_len, bytes_of, derive_address, COMMENT_TAG};
use crate::identity::Identity;
use crate::record::{fits, Comment, CommentView, Record, RecordView, MAX_COMMENT_LEN, MAX_ID_LEN};
use crate::store::{address_result, RecordStore, StoreError, StoreMap};

verus! {

/// The caller of `create_comment`, who becomes the comment's owner.
pub struct CreateComment {
    pub signer: Identity,
}

/// The caller of `update_comment`, and the owner whose comment is addressed.
pub struct UpdateComment {
    pub signer: Identity,
    pub owner: Identity,
}

/// The caller of `delete_comment`, and the owner whose comment is addressed.
pub struct DeleteComment {
    pub signer: Identity,
    pub owner: Identity,
}

/// The address of `owner`'s comment with id `id`.
pub open spec fn comment_address(owner: Seq<u8>, id: Seq<char>) -> Seq<u8> {
    address_of(COMMENT_TAG, owner, bytes_of(id))
}

/// The comment at `owner`/`id` in `m`.
pub open spec fn comment_at(m: StoreMap, owner: Seq<u8>, id: Seq<char>) -> Result<
    CommentView,
    StoreError,
> {
    let addr = comment_address(owner, id);
    if !m.contains_key(addr) {
        Err(StoreError::NotFound)
    } else {
        match m[addr] {
            RecordView::Comment(c) => Ok(c),
            _ => Err(StoreError::NotFound),
        }
    }
}

/// What `create_comment` returns, and the store it leaves.
pub open spec fn create_comment_outcome(
    m: StoreMap,
    signer: Seq<u8>,
    id: Seq<char>,
    blog_id: Seq<char>,
    content: Seq<char>,
) -> (Result<Seq<u8>, StoreError>, StoreMap) {
    let addr = comment_address(signer, id);
    if byte_len(id) > MAX_ID_LEN {
        (Err(StoreError::FieldTooLong), m)
    } else if m.contains_key(addr) {
        (Err(StoreError::AlreadyExists), m)
    } else if byte_len(blog_id) > MAX_ID_LEN || byte_len(content) > MAX_COMMENT_LEN {
        (Err(StoreError::FieldTooLong), m)
    } else {
        let c = CommentView { owner: signer, id, blog_id, content };
        (Ok(addr), m.insert(addr, RecordView::Comment(c)))
    }
}

/// What `update_comment` returns, and the store it leaves.
pub open spec fn update_comment_outcome(
    m: StoreMap,
    signer: Seq<u8>,
    owner: Seq<u8>,
    id: Seq<char>,
    content: Seq<char>,
) -> (Result<(), StoreError>, StoreMap) {
    match comment_at(m, owner, id) {
        Err(e) => (Err(e), m),
        Ok(c) => if c.owner != signer {
            (Err(StoreError::Unauthorized), m)
        } else if byte_len(content) > MAX_COMMENT_LEN {
            (Err(StoreError::FieldTooLong), m)
        } else {
            let nc = CommentView { owner: c.owner, id: c.id, blog_id: c.blog_id, content };
            (Ok(()), m.insert(comment_address(owner, id), RecordView::Comment(nc)))
        },
    }
}

/// What `delete_comment` returns, and the store it leaves.
pub open spec fn delete_comment_outcome(
    m: StoreMap,
    signer: Seq<u8>,
    owner: Seq<u8>,
    id: Seq<char>,
) -> (Result<(), StoreError>, StoreMap) {
    match comment_at(m, owner, id) {
        Err(e) => (Err(e), m),
        Ok(c) => if c.owner != signer {
            (Err(StoreError::Unauthorized), m)
        } else {
            (Ok(()), m.remove(comment_address(owner, id)))
        },
    }
}

/// Creates the signer's comment `id` on the blog named `blog_id`. The blog
/// is not looked up: the reference is stored as given.
pub fn create_comment(
    store: &mut RecordStore,
    ctx: &CreateComment,
    id: String,
    blog_id: String,
    content: String,
) -> (r: Result<Vec<u8>, StoreError>)
    requires
        old(store).wf(),
    ensures
        final(store).wf(),
        address_result(r) == create_comment_outcome(
            old(store)@,
            ctx.signer@,
            id@,
            blog_id@,
            content@,
        ).0,
        final(store)@ == create_comment_outcome(
            old(store)@,
            ctx.signer@,
            id@,
            blog_id@,
            content@,
        ).1,
{
    if !fits(&id, MAX_ID_LEN) {
        return Err(StoreError::FieldTooLong);
    }
    let addr = derive_address(COMMENT_TAG, &ctx.signer, id.as_str());
    if store.lookup(&addr).is_some() {
        return Err(StoreError::AlreadyExists);
    }
    if !fits(&blog_id, MAX_ID_LEN) || !fits(&content, MAX_COMMENT_LEN) {
        return Err(StoreError::FieldTooLong);
    }
    let created = derive_address(COMMENT_TAG, &ctx.signer, id.as_str());
    let comment = Comment { owner: ctx.signer, id, blog_id, content };
    store.insert_new(addr, Record::Comment(comment));
    Ok(created)
}

/// Replaces the body of `owner`'s comment `id`; only the owner may do so.
pub fn update_comment(store: &mut RecordStore, ctx: &UpdateComment, id: String, content: String) -> (r:
    Result<(), StoreError>)
    requires
        old(store).wf(),
    ensures
        final(store).wf(),
        (r, final(store)@) == update_comment_outcome(
            old(store)@,
            ctx.signer@,
            ctx.owner@,
            id@,
            content@,
        ),
{
    let existing = match get_comment(store, &ctx.owner, &id) {
        Ok(c) => c,
        Err(e) => {
            return Err(e);
        },
    };
    if !existing.owner.same_as(&ctx.signer) {
        return Err(StoreError::Unauthorized);
    }
    if !fits(&content, MAX_COMMENT_LEN) {
        return Err(StoreError::FieldTooLong);
    }
    proof {
        store.lemma_well_shaped();
    }
    let comment = Comment {
        owner: existing.owner,
        id: existing.id,
        blog_id: existing.blog_id,
        content,
    };
    let addr = derive_address(COMMENT_TAG, &ctx.owner, id.as_str());
    store.replace(&addr, Record::Comment(comment));
    Ok(())
}

/// Removes `owner`'s comment `id`; only the owner may do so.
pub fn delete_comment(store: &mut RecordStore, ctx: &DeleteComment, id: String) -> (r: Result<
    (),
    StoreError,
>)
    requires
        old(store).wf(),
    ensures
        final(store).wf(),
        (r, final(store)@) == delete_comment_outcome(old(store)@, ctx.signer@, ctx.owner@, id@),
{
    let existing = match get_comment(store, &ctx.owner, &id) {
        Ok(c) => c,
        Err(e) => {
            return Err(e);
        },
    };
    if !existing.owner.same_as(&ctx.signer) {
        return Err(StoreError::Unauthorized);
    }
    let addr = derive_address(COMMENT_TAG, &ctx.owner, id.as_str());
    store.remove(&addr);
    Ok(())
}

/// A copy of `owner`'s comment `id`.
pub fn get_comment(store: &RecordStore, owner: &Identity, id: &String) -> (r: Result<
    Comment,
    StoreError,
>)
    requires
        store.wf(),
    ensures
        match r {
            Ok(c) => comment_at(store@, owner@, id@) == Ok::<CommentView, StoreError>(c@),
            Err(e) => comment_at(store@, owner@, id@) == Err::<CommentView, StoreError>(e),
        },
{
    let addr = derive_address(COMMENT_TAG, owner, id.as_str());
    match store.lookup(&addr) {
        Some(Record::Comment(c)) => Ok(c.duplicate()),
        _ => Err(StoreError::NotFound),
    }
}

} // verus!
