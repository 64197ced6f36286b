use vstd::prelude::*;
use crate::address::{address_of, byte_len, bytes_of, derive_address, BLOG_TAG};
use crate::identity::Identity;
use crate::record::{
    fits, strings_view, Blog, BlogView, Record, RecordView, CONTENT_SLOTS, MAX_ID_LEN,
    MAX_SLOT_LEN, MAX_TITLE_LEN,
};
use crate::store::{address_result, RecordStore, StoreError, StoreMap};

verus! {

/// The caller of `create_blog`, who becomes the blog's owner.
pub struct CreateBlog {
    pub signer: Identity,
}

/// The caller of `update_blog`, and the owner whose blog is addressed.
pub struct UpdateBlog {
    pub signer: Identity,
    pub owner: Identity,
}

/// The caller of `delete_blog`, and the owner whose blog is addressed.
pub struct DeleteBlog {
    pub signer: Identity,
    pub owner: Identity,
}

/// The address of `owner`'s blog with id `id`.
pub open spec fn blog_address(owner: Seq<u8>, id: Seq<char>) -> Seq<u8> {
    address_of(BLOG_TAG, owner, bytes_of(id))
}

/// The content slots of a new blog: `first` in slot 0, the others empty.
pub open spec fn fresh_content(first: Seq<char>) -> Seq<Seq<char>> {
    Seq::new(CONTENT_SLOTS as nat, |i: int| if i == 0 { first } else { Seq::<char>::empty() })
}

/// The blog at `owner`/`id` in `m`.
pub open spec fn blog_at(m: StoreMap, owner: Seq<u8>, id: Seq<char>) -> Result<BlogView, StoreError> {
    let addr = blog_address(owner, id);
    if !m.contains_key(addr) {
        Err(StoreError::NotFound)
    } else {
        match m[addr] {
            RecordView::Blog(b) => Ok(b),
            _ => Err(StoreError::NotFound),
        }
    }
}

/// What `create_blog` returns, and the store it leaves.
pub open spec fn create_blog_outcome(
    m: StoreMap,
    signer: Seq<u8>,
    id: Seq<char>,
    title: Seq<char>,
    content: Seq<char>,
) -> (Result<Seq<u8>, StoreError>, StoreMap) {
    let addr = blog_address(signer, id);
    if byte_len(id) > MAX_ID_LEN {
        (Err(StoreError::FieldTooLong), m)
    } else if m.contains_key(addr) {
        (Err(StoreError::AlreadyExists), m)
    } else if byte_len(title) > MAX_TITLE_LEN || byte_len(content) > MAX_SLOT_LEN {
        (Err(StoreError::FieldTooLong), m)
    } else {
        let b = BlogView { owner: signer, id, title, content: fresh_content(content) };
        (Ok(addr), m.insert(addr, RecordView::Blog(b)))
    }
}

/// What `update_blog` returns, and the store it leaves.
pub open spec fn update_blog_outcome(
    m: StoreMap,
    signer: Seq<u8>,
    owner: Seq<u8>,
    id: Seq<char>,
    title: Seq<char>,
    content: Seq<char>,
    idx: u64,
) -> (Result<(), StoreError>, StoreMap) {
    match blog_at(m, owner, id) {
        Err(e) => (Err(e), m),
        Ok(b) => if b.owner != signer {
            (Err(StoreError::Unauthorized), m)
        } else if byte_len(title) > MAX_TITLE_LEN || byte_len(content) > MAX_SLOT_LEN {
            (Err(StoreError::FieldTooLong), m)
        } else if idx >= CONTENT_SLOTS {
            (Err(StoreError::IndexOutOfBounds), m)
        } else {
            let nb = BlogView {
                owner: b.owner,
                id: b.id,
                title,
                content: b.content.update(idx as int, content),
            };
            (Ok(()), m.insert(blog_address(owner, id), RecordView::Blog(nb)))
        },
    }
}

/// What `delete_blog` returns, and the store it leaves.
pub open spec fn delete_blog_outcome(
    m: StoreMap,
    signer: Seq<u8>,
    owner: Seq<u8>,
    id: Seq<char>,
) -> (Result<(), StoreError>, StoreMap) {
    match blog_at(m, owner, id) {
        Err(e) => (Err(e), m),
        Ok(b) => if b.owner != signer {
            (Err(StoreError::Unauthorized), m)
        } else {
            (Ok(()), m.remove(blog_address(owner, id)))
        },
    }
}

/// Creates the signer's blog `id`: the title, `content` in the first slot
/// and the other slots empty.
pub fn create_blog(
    store: &mut RecordStore,
    ctx: &CreateBlog,
    id: String,
    title: String,
    content: String,
) -> (r: Result<Vec<u8>, StoreError>)
    requires
        old(store).wf(),
    ensures
        final(store).wf(),
        address_result(r) == create_blog_outcome(old(store)@, ctx.signer@, id@, title@, content@).0,
        final(store)@ == create_blog_outcome(old(store)@, ctx.signer@, id@, title@, content@).1,
{
    if !fits(&id, MAX_ID_LEN) {
        return Err(StoreError::FieldTooLong);
    }
    let addr = derive_address(BLOG_TAG, &ctx.signer, id.as_str());
    if store.lookup(&addr).is_some() {
        return Err(StoreError::AlreadyExists);
    }
    if !fits(&title, MAX_TITLE_LEN) || !fits(&content, MAX_SLOT_LEN) {
        return Err(StoreError::FieldTooLong);
    }
    let ghost first = content@;
    let mut slots: Vec<String> = Vec::new();
    slots.push(content);
    while slots.len() < CONTENT_SLOTS
        invariant
            1 <= slots@.len() <= CONTENT_SLOTS,
            slots@[0]@ == first,
            forall|k: int| 1 <= k < slots@.len() ==> slots@[k]@ == Seq::<char>::empty(),
        decreases CONTENT_SLOTS - slots@.len(),
    {
        slots.push(String::new());
    }
    assert(strings_view(slots@) =~= fresh_content(first));
    let created = derive_address(BLOG_TAG, &ctx.signer, id.as_str());
    let blog = Blog { owner: ctx.signer, id, title, content: slots };
    store.insert_new(addr, Record::Blog(blog));
    Ok(created)
}

/// Sets the title and one content slot of `owner`'s blog `id`; only the
/// owner may do so.
pub fn update_blog(
    store: &mut RecordStore,
    ctx: &UpdateBlog,
    id: String,
    title: String,
    content: String,
    idx: u64,
) -> (r: Result<(), StoreError>)
    requires
        old(store).wf(),
    ensures
        final(store).wf(),
        (r, final(store)@) == update_blog_outcome(
            old(store)@,
            ctx.signer@,
            ctx.owner@,
            id@,
            title@,
            content@,
            idx,
        ),
{
    let existing = match get_blog(store, &ctx.owner, &id) {
        Ok(b) => b,
        Err(e) => {
            return Err(e);
        },
    };
    if !existing.owner.same_as(&ctx.signer) {
        return Err(StoreError::Unauthorized);
    }
    if !fits(&title, MAX_TITLE_LEN) || !fits(&content, MAX_SLOT_LEN) {
        return Err(StoreError::FieldTooLong);
    }
    if idx >= CONTENT_SLOTS as u64 {
        return Err(StoreError::IndexOutOfBounds);
    }
    proof {
        store.lemma_well_shaped();
    }
    let ghost slot = content@;
    let mut slots = existing.content;
    slots.set(idx as usize, content);
    assert(strings_view(slots@) =~= existing@.content.update(idx as int, slot));
    let blog = Blog { owner: existing.owner, id: existing.id, title, content: slots };
    let addr = derive_address(BLOG_TAG, &ctx.owner, id.as_str());
    store.replace(&addr, Record::Blog(blog));
    Ok(())
}

/// Removes `owner`'s blog `id`; only the owner may do so.
pub fn delete_blog(store: &mut RecordStore, ctx: &DeleteBlog, id: String) -> (r: Result<
    (),
    StoreError,
>)
    requires
        old(store).wf(),
    ensures
        final(store).wf(),
        (r, final(store)@) == delete_blog_outcome(old(store)@, ctx.signer@, ctx.owner@, id@),
{
    let existing = match get_blog(store, &ctx.owner, &id) {
        Ok(b) => b,
        Err(e) => {
            return Err(e);
        },
    };
    if !existing.owner.same_as(&ctx.signer) {
        return Err(StoreError::Unauthorized);
    }
    let addr = derive_address(BLOG_TAG, &ctx.owner, id.as_str());
    store.remove(&addr);
    Ok(())
}

/// A copy of `owner`'s blog `id`.
pub fn get_blog(store: &RecordStore, owner: &Identity, id: &String) -> (r: Result<Blog, StoreError>)
    requires
        store.wf(),
    ensures
        match r {
            Ok(b) => blog_at(store@, owner@, id@) == Ok::<BlogView, StoreError>(b@),
            Err(e) => blog_at(store@, owner@, id@) == Err::<BlogView, StoreError>(e),
        },
{
    let addr = derive_address(BLOG_TAG, owner, id.as_str());
    match store.lookup(&addr) {
        Some(Record::Blog(b)) => Ok(b.duplicate()),
        _ => Err(StoreError::NotFound),
    }
}

} // verus!
