use vstd::prelude::*;
use crate::address::{byte_len, lemma_key_injective, BLOG_TAG, COMMENT_TAG};
use crate::identity::IDENTITY_LEN;
use crate::author_info::{
    author_info_address, author_info_at, create_author_info_outcome, delete_author_info_outcome,
    update_author_info_outcome,
};
use crate::blog::{
    blog_address, blog_at, create_blog_outcome, delete_blog_outcome, fresh_content,
    update_blog_outcome,
};
use crate::comment::{
    comment_address, comment_at, create_comment_outcome, delete_comment_outcome,
    update_comment_outcome,
};
use crate::counter::{
    count_at, decrement_counter_outcome, decrement_outcome, increment_counter_outcome,
    increment_outcome,
};
use crate::record::{
    AuthorInfoView, BlogView, CommentView, CONTENT_SLOTS, MAX_COMMENT_LEN, MAX_ID_LEN,
    MAX_INTRO_LEN, MAX_SLOT_LEN, MAX_TITLE_LEN,
};
use crate::store::{well_shaped, StoreError, StoreMap};

verus! {

/// Creating a blog at a free address succeeds, and reading it back gives
/// the signer as owner, the given id and title, and the given content in the
/// first slot.
pub proof fn lemma_create_then_get_blog(
    m: StoreMap,
    signer: Seq<u8>,
    id: Seq<char>,
    title: Seq<char>,
    content: Seq<char>,
)
    requires
        byte_len(id) <= MAX_ID_LEN,
        byte_len(title) <= MAX_TITLE_LEN,
        byte_len(content) <= MAX_SLOT_LEN,
        !m.contains_key(blog_address(signer, id)),
    ensures
        create_blog_outcome(m, signer, id, title, content).0 == Ok::<Seq<u8>, StoreError>(
            blog_address(signer, id),
        ),
        blog_at(create_blog_outcome(m, signer, id, title, content).1, signer, id) == Ok::<
            BlogView,
            StoreError,
        >(BlogView { owner: signer, id, title, content: fresh_content(content) }),
{
}

/// Creating a comment at a free address succeeds, and reading it back gives
/// exactly the values supplied.
pub proof fn lemma_create_then_get_comment(
    m: StoreMap,
    signer: Seq<u8>,
    id: Seq<char>,
    blog_id: Seq<char>,
    content: Seq<char>,
)
    requires
        byte_len(id) <= MAX_ID_LEN,
        byte_len(blog_id) <= MAX_ID_LEN,
        byte_len(content) <= MAX_COMMENT_LEN,
        !m.contains_key(comment_address(signer, id)),
    ensures
        create_comment_outcome(m, signer, id, blog_id, content).0 == Ok::<Seq<u8>, StoreError>(
            comment_address(signer, id),
        ),
        comment_at(create_comment_outcome(m, signer, id, blog_id, content).1, signer, id) == Ok::<
            CommentView,
            StoreError,
        >(CommentView { owner: signer, id, blog_id, content }),
{
}

/// Creating a profile for an owner who has none succeeds, and reading it
/// back gives exactly the values supplied.
pub proof fn lemma_create_then_get_author_info(m: StoreMap, signer: Seq<u8>, intro: Seq<char>)
    requires
        byte_len(intro) <= MAX_INTRO_LEN,
        !m.contains_key(author_info_address(signer)),
    ensures
        create_author_info_outcome(m, signer, intro).0 == Ok::<Seq<u8>, StoreError>(
            author_info_address(signer),
        ),
        author_info_at(create_author_info_outcome(m, signer, intro).1, signer) == Ok::<
            AuthorInfoView,
            StoreError,
        >(AuthorInfoView { owner: signer, intro }),
{
}

/// Creating a blog at an occupied address fails with `AlreadyExists` and
/// leaves the store as it was.
pub proof fn lemma_create_blog_twice(
    m: StoreMap,
    signer: Seq<u8>,
    id: Seq<char>,
    title: Seq<char>,
    content: Seq<char>,
)
    requires
        byte_len(id) <= MAX_ID_LEN,
        m.contains_key(blog_address(signer, id)),
    ensures
        create_blog_outcome(m, signer, id, title, content) == (
        Err::<Seq<u8>, StoreError>(StoreError::AlreadyExists),
        m,
        ),
{
}

/// Creating a comment at an occupied address fails with `AlreadyExists` and
/// leaves the store as it was.
pub proof fn lemma_create_comment_twice(
    m: StoreMap,
    signer: Seq<u8>,
    id: Seq<char>,
    blog_id: Seq<char>,
    content: Seq<char>,
)
    requires
        byte_len(id) <= MAX_ID_LEN,
        m.contains_key(comment_address(signer, id)),
    ensures
        create_comment_outcome(m, signer, id, blog_id, content) == (
        Err::<Seq<u8>, StoreError>(StoreError::AlreadyExists),
        m,
        ),
{
}

/// Creating a second profile for the same owner fails with `AlreadyExists`
/// and leaves the store as it was.
pub proof fn lemma_create_author_info_twice(m: StoreMap, signer: Seq<u8>, intro: Seq<char>)
    requires
        m.contains_key(author_info_address(signer)),
    ensures
        create_author_info_outcome(m, signer, intro) == (
        Err::<Seq<u8>, StoreError>(StoreError::AlreadyExists),
        m,
        ),
{
}

/// An update of a blog by anyone but its owner fails with `Unauthorized`
/// and leaves the store as it was.
pub proof fn lemma_update_blog_by_stranger(
    m: StoreMap,
    signer: Seq<u8>,
    owner: Seq<u8>,
    id: Seq<char>,
    title: Seq<char>,
    content: Seq<char>,
    idx: u64,
)
    requires
        blog_at(m, owner, id) is Ok,
        blog_at(m, owner, id)->Ok_0.owner != signer,
    ensures
        update_blog_outcome(m, signer, owner, id, title, content, idx) == (
        Err::<(), StoreError>(StoreError::Unauthorized),
        m,
        ),
{
}

/// An update of a comment by anyone but its owner fails with
/// `Unauthorized` and leaves the store as it was.
pub proof fn lemma_update_comment_by_stranger(
    m: StoreMap,
    signer: Seq<u8>,
    owner: Seq<u8>,
    id: Seq<char>,
    content: Seq<char>,
)
    requires
        comment_at(m, owner, id) is Ok,
        comment_at(m, owner, id)->Ok_0.owner != signer,
    ensures
        update_comment_outcome(m, signer, owner, id, content) == (
        Err::<(), StoreError>(StoreError::Unauthorized),
        m,
        ),
{
}

/// An update of a profile by anyone but its owner fails with
/// `Unauthorized` and leaves the store as it was.
pub proof fn lemma_update_author_info_by_stranger(
    m: StoreMap,
    signer: Seq<u8>,
    owner: Seq<u8>,
    intro: Seq<char>,
)
    requires
        author_info_at(m, owner) is Ok,
        author_info_at(m, owner)->Ok_0.owner != signer,
    ensures
        update_author_info_outcome(m, signer, owner, intro) == (
        Err::<(), StoreError>(StoreError::Unauthorized),
        m,
        ),
{
}

/// An owner's update of a blog with a title or a slot content over its
/// maximum length fails with `FieldTooLong` and leaves the store as it was.
pub proof fn lemma_update_blog_too_long(
    m: StoreMap,
    owner: Seq<u8>,
    id: Seq<char>,
    title: Seq<char>,
    content: Seq<char>,
    idx: u64,
)
    requires
        blog_at(m, owner, id) is Ok,
        blog_at(m, owner, id)->Ok_0.owner == owner,
        byte_len(title) > MAX_TITLE_LEN || byte_len(content) > MAX_SLOT_LEN,
    ensures
        update_blog_outcome(m, owner, owner, id, title, content, idx) == (
        Err::<(), StoreError>(StoreError::FieldTooLong),
        m,
        ),
{
}

/// An owner's update of a comment with a body over its maximum length fails
/// with `FieldTooLong` and leaves the store as it was.
pub proof fn lemma_update_comment_too_long(
    m: StoreMap,
    owner: Seq<u8>,
    id: Seq<char>,
    content: Seq<char>,
)
    requires
        comment_at(m, owner, id) is Ok,
        comment_at(m, owner, id)->Ok_0.owner == owner,
        byte_len(content) > MAX_COMMENT_LEN,
    ensures
        update_comment_outcome(m, owner, owner, id, content) == (
        Err::<(), StoreError>(StoreError::FieldTooLong),
        m,
        ),
{
}

/// An owner's update of a profile with an introduction over its maximum
/// length fails with `FieldTooLong` and leaves the store as it was.
pub proof fn lemma_update_author_info_too_long(m: StoreMap, owner: Seq<u8>, intro: Seq<char>)
    requires
        author_info_at(m, owner) is Ok,
        author_info_at(m, owner)->Ok_0.owner == owner,
        byte_len(intro) > MAX_INTRO_LEN,
    ensures
        update_author_info_outcome(m, owner, owner, intro) == (
        Err::<(), StoreError>(StoreError::FieldTooLong),
        m,
        ),
{
}

/// After its owner deletes a blog, reading it gives `NotFound`; creating it
/// again then succeeds with a fresh blog built from the new values alone.
pub proof fn lemma_delete_then_recreate_blog(
    m: StoreMap,
    owner: Seq<u8>,
    id: Seq<char>,
    title: Seq<char>,
    content: Seq<char>,
)
    requires
        well_shaped(m),
        owner.len() == IDENTITY_LEN,
        blog_at(m, owner, id) is Ok,
        blog_at(m, owner, id)->Ok_0.owner == owner,
        byte_len(title) <= MAX_TITLE_LEN,
        byte_len(content) <= MAX_SLOT_LEN,
    ensures
        delete_blog_outcome(m, owner, owner, id).0 == Ok::<(), StoreError>(()),
        blog_at(delete_blog_outcome(m, owner, owner, id).1, owner, id) == Err::<
            BlogView,
            StoreError,
        >(StoreError::NotFound),
        create_blog_outcome(delete_blog_outcome(m, owner, owner, id).1, owner, id, title, content).0
            == Ok::<Seq<u8>, StoreError>(blog_address(owner, id)),
        blog_at(
            create_blog_outcome(
                delete_blog_outcome(m, owner, owner, id).1,
                owner,
                id,
                title,
                content,
            ).1,
            owner,
            id,
        ) == Ok::<BlogView, StoreError>(
            BlogView { owner, id, title, content: fresh_content(content) },
        ),
{
    let b = blog_at(m, owner, id)->Ok_0;
    assert(m.contains_key(blog_address(owner, id)));
    lemma_key_injective(BLOG_TAG, owner, id, BLOG_TAG, b.owner, b.id);
}

/// After its owner deletes a comment, reading it gives `NotFound`; creating
/// it again then succeeds with a fresh comment built from the new values
/// alone.
pub proof fn lemma_delete_then_recreate_comment(
    m: StoreMap,
    owner: Seq<u8>,
    id: Seq<char>,
    blog_id: Seq<char>,
    content: Seq<char>,
)
    requires
        well_shaped(m),
        owner.len() == IDENTITY_LEN,
        comment_at(m, owner, id) is Ok,
        comment_at(m, owner, id)->Ok_0.owner == owner,
        byte_len(blog_id) <= MAX_ID_LEN,
        byte_len(content) <= MAX_COMMENT_LEN,
    ensures
        delete_comment_outcome(m, owner, owner, id).0 == Ok::<(), StoreError>(()),
        comment_at(delete_comment_outcome(m, owner, owner, id).1, owner, id) == Err::<
            CommentView,
            StoreError,
        >(StoreError::NotFound),
        create_comment_outcome(
            delete_comment_outcome(m, owner, owner, id).1,
            owner,
            id,
            blog_id,
            content,
        ).0 == Ok::<Seq<u8>, StoreError>(comment_address(owner, id)),
        comment_at(
            create_comment_outcome(
                delete_comment_outcome(m, owner, owner, id).1,
                owner,
                id,
                blog_id,
                content,
            ).1,
            owner,
            id,
        ) == Ok::<CommentView, StoreError>(CommentView { owner, id, blog_id, content }),
{
    let c = comment_at(m, owner, id)->Ok_0;
    assert(m.contains_key(comment_address(owner, id)));
    lemma_key_injective(COMMENT_TAG, owner, id, COMMENT_TAG, c.owner, c.id);
}

/// After its owner deletes a profile, reading it gives `NotFound`; creating
/// it again then succeeds with a fresh profile.
pub proof fn lemma_delete_then_recreate_author_info(m: StoreMap, owner: Seq<u8>, intro: Seq<char>)
    requires
        author_info_at(m, owner) is Ok,
        author_info_at(m, owner)->Ok_0.owner == owner,
        byte_len(intro) <= MAX_INTRO_LEN,
    ensures
        delete_author_info_outcome(m, owner, owner).0 == Ok::<(), StoreError>(()),
        author_info_at(delete_author_info_outcome(m, owner, owner).1, owner) == Err::<
            AuthorInfoView,
            StoreError,
        >(StoreError::NotFound),
        create_author_info_outcome(delete_author_info_outcome(m, owner, owner).1, owner, intro).0
            == Ok::<Seq<u8>, StoreError>(author_info_address(owner)),
        author_info_at(
            create_author_info_outcome(delete_author_info_outcome(m, owner, owner).1, owner, intro).1,
            owner,
        ) == Ok::<AuthorInfoView, StoreError>(AuthorInfoView { owner, intro }),
{
}

/// Incrementing and then decrementing a counter below its maximum brings it
/// back to where it was.
pub proof fn lemma_increment_then_decrement(c: u8)
    requires
        c < u8::MAX,
    ensures
        increment_outcome(c).0 == Ok::<(), StoreError>(()),
        decrement_outcome(increment_outcome(c).1) == (Ok::<(), StoreError>(()), c),
{
}

/// Decrementing a counter at zero fails with `ArithmeticOverflow` and
/// leaves it at zero; incrementing it at the largest count fails alike.
pub proof fn lemma_counter_bounds()
    ensures
        decrement_outcome(0) == (Err::<(), StoreError>(StoreError::ArithmeticOverflow), 0u8),
        increment_outcome(u8::MAX) == (
        Err::<(), StoreError>(StoreError::ArithmeticOverflow),
        u8::MAX,
        ),
{
}

/// On the stored counter, an increment and then a decrement from a count
/// below the maximum succeed and leave the store as it was.
pub proof fn lemma_stored_counter_round_trip(m: StoreMap, c: u8)
    requires
        count_at(m) == Ok::<u8, StoreError>(c),
        c < u8::MAX,
    ensures
        increment_counter_outcome(m).0 == Ok::<(), StoreError>(()),
        count_at(increment_counter_outcome(m).1) == Ok::<u8, StoreError>((c + 1) as u8),
        decrement_counter_outcome(increment_counter_outcome(m).1) == (Ok::<(), StoreError>(()), m),
{
    let m1 = increment_counter_outcome(m).1;
    let m2 = decrement_counter_outcome(m1).1;
    assert(m2 =~= m);
}

/// On the stored counter, a decrement at zero and an increment at the
/// largest count fail with `ArithmeticOverflow` and leave the store as it
/// was.
pub proof fn lemma_stored_counter_bounds(m: StoreMap)
    ensures
        count_at(m) == Ok::<u8, StoreError>(0) ==> decrement_counter_outcome(m) == (
        Err::<(), StoreError>(StoreError::ArithmeticOverflow),
        m,
        ),
        count_at(m) == Ok::<u8, StoreError>(u8::MAX) ==> increment_counter_outcome(m) == (
        Err::<(), StoreError>(StoreError::ArithmeticOverflow),
        m,
        ),
{
}

/// An owner's update of a blog with valid fields fails with
/// `IndexOutOfBounds` at slot index one past the last; at the last slot it
/// succeeds, sets the title and that slot, and leaves every other slot as it
/// was.
pub proof fn lemma_update_blog_slot_bounds(
    m: StoreMap,
    owner: Seq<u8>,
    id: Seq<char>,
    title: Seq<char>,
    content: Seq<char>,
)
    requires
        well_shaped(m),
        blog_at(m, owner, id) is Ok,
        blog_at(m, owner, id)->Ok_0.owner == owner,
        byte_len(title) <= MAX_TITLE_LEN,
        byte_len(content) <= MAX_SLOT_LEN,
    ensures
        update_blog_outcome(m, owner, owner, id, title, content, CONTENT_SLOTS as u64) == (
        Err::<(), StoreError>(StoreError::IndexOutOfBounds),
        m,
        ),
        ({
            let b = blog_at(m, owner, id)->Ok_0;
            let (r, m2) = update_blog_outcome(
                m,
                owner,
                owner,
                id,
                title,
                content,
                (CONTENT_SLOTS - 1) as u64,
            );
            let nb = blog_at(m2, owner, id)->Ok_0;
            &&& r == Ok::<(), StoreError>(())
            &&& blog_at(m2, owner, id) is Ok
            &&& nb.owner == b.owner
            &&& nb.id == b.id
            &&& nb.title == title
            &&& nb.content.len() == CONTENT_SLOTS
            &&& nb.content[CONTENT_SLOTS - 1] == content
            &&& forall|k: int|
                0 <= k < CONTENT_SLOTS - 1 ==> #[trigger] nb.content[k] == b.content[k]
        }),
{
    assert(m.contains_key(blog_address(owner, id)));
}

} // verus!
