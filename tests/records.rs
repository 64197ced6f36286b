use blog_store::address::{derive_address, AUTHOR_INFO_TAG, BLOG_TAG, COMMENT_TAG};
use blog_store::author_info::{
    create_author_info, delete_author_info, get_author_info, update_author_info,
    CreateAuthorInfo, DeleteAuthorInfo, UpdateAuthorInfo,
};
use blog_store::blog::{create_blog, delete_blog, get_blog, update_blog, CreateBlog, DeleteBlog, UpdateBlog};
use blog_store::comment::{
    create_comment, delete_comment, get_comment, update_comment, CreateComment, DeleteComment,
    UpdateComment,
};
use blog_store::identity::Identity;
use blog_store::store::{RecordStore, StoreError};

fn alice() -> Identity {
    Identity::new([1u8; 32])
}

fn bob() -> Identity {
    Identity::new([2u8; 32])
}

fn s(x: &str) -> String {
    x.to_string()
}

fn store_with_blog() -> RecordStore {
    let mut store = RecordStore::new();
    let r = create_blog(&mut store, &CreateBlog { signer: alice() }, s("post"), s("Hello"), s("first"));
    assert!(r.is_ok());
    store
}

#[test]
fn create_then_get_blog() {
    let store = store_with_blog();
    let b = get_blog(&store, &alice(), &s("post")).unwrap();
    assert_eq!(b.owner().bytes, [1u8; 32]);
    assert_eq!(b.id(), "post");
    assert_eq!(b.title(), "Hello");
    assert_eq!(b.content().len(), 20);
    assert_eq!(b.content()[0], "first");
    for k in 1..20 {
        assert_eq!(b.content()[k], "");
    }
    assert_eq!(store.len(), 1);
}

#[test]
fn create_then_get_comment() {
    let mut store = RecordStore::new();
    let r = create_comment(&mut store, &CreateComment { signer: bob() }, s("c1"), s("post"), s("nice"));
    assert!(r.is_ok());
    let c = get_comment(&store, &bob(), &s("c1")).unwrap();
    assert_eq!(c.owner().bytes, [2u8; 32]);
    assert_eq!(c.id(), "c1");
    assert_eq!(c.blog_id(), "post");
    assert_eq!(c.content(), "nice");
}

#[test]
fn create_then_get_author_info() {
    let mut store = RecordStore::new();
    let r = create_author_info(&mut store, &CreateAuthorInfo { signer: alice() }, s("I write."));
    assert!(r.is_ok());
    let a = get_author_info(&store, &alice()).unwrap();
    assert_eq!(a.owner().bytes, [1u8; 32]);
    assert_eq!(a.intro(), "I write.");
    assert_eq!(get_author_info(&store, &bob()).unwrap_err(), StoreError::NotFound);
}

#[test]
fn kinds_do_not_collide() {
    let mut store = store_with_blog();
    let r = create_comment(&mut store, &CreateComment { signer: alice() }, s("post"), s("post"), s("x"));
    assert!(r.is_ok());
    assert_eq!(store.len(), 2);
    assert_eq!(get_blog(&store, &alice(), &s("post")).unwrap().title(), "Hello");
    assert_eq!(get_comment(&store, &alice(), &s("post")).unwrap().content(), "x");
    assert_eq!(get_blog(&store, &bob(), &s("post")).unwrap_err(), StoreError::NotFound);
}

#[test]
fn create_twice_already_exists() {
    let mut store = store_with_blog();
    let r = create_blog(&mut store, &CreateBlog { signer: alice() }, s("post"), s("Other"), s("second"));
    assert_eq!(r, Err(StoreError::AlreadyExists));
    let b = get_blog(&store, &alice(), &s("post")).unwrap();
    assert_eq!(b.title(), "Hello");
    assert_eq!(b.content()[0], "first");
    assert_eq!(store.len(), 1);

    let mut store = RecordStore::new();
    assert!(create_author_info(&mut store, &CreateAuthorInfo { signer: bob() }, s("a")).is_ok());
    assert_eq!(
        create_author_info(&mut store, &CreateAuthorInfo { signer: bob() }, s("b")),
        Err(StoreError::AlreadyExists)
    );
    assert_eq!(get_author_info(&store, &bob()).unwrap().intro(), "a");
}

#[test]
fn create_with_long_fields() {
    let mut store = RecordStore::new();
    let long_id = "i".repeat(33);
    let r = create_blog(&mut store, &CreateBlog { signer: alice() }, long_id, s("t"), s("c"));
    assert_eq!(r, Err(StoreError::FieldTooLong));
    let r = create_blog(&mut store, &CreateBlog { signer: alice() }, "i".repeat(32), "t".repeat(51), s("c"));
    assert_eq!(r, Err(StoreError::FieldTooLong));
    let r = create_blog(&mut store, &CreateBlog { signer: alice() }, "i".repeat(32), s("t"), "c".repeat(501));
    assert_eq!(r, Err(StoreError::FieldTooLong));
    assert_eq!(store.len(), 0);
    let r = create_blog(&mut store, &CreateBlog { signer: alice() }, "i".repeat(32), "t".repeat(50), "c".repeat(500));
    assert!(r.is_ok());
    let r = create_comment(&mut store, &CreateComment { signer: alice() }, s("c"), "b".repeat(33), s("x"));
    assert_eq!(r, Err(StoreError::FieldTooLong));
    let r = create_author_info(&mut store, &CreateAuthorInfo { signer: alice() }, "x".repeat(501));
    assert_eq!(r, Err(StoreError::FieldTooLong));
    assert_eq!(store.len(), 1);
}

#[test]
fn lengths_count_bytes() {
    // 26 two-byte characters: 26 characters, 52 bytes.
    let title = "é".repeat(26);
    let mut store = RecordStore::new();
    let r = create_blog(&mut store, &CreateBlog { signer: alice() }, s("p"), title, s("c"));
    assert_eq!(r, Err(StoreError::FieldTooLong));
    let r = create_blog(&mut store, &CreateBlog { signer: alice() }, s("p"), "é".repeat(25), s("c"));
    assert!(r.is_ok());
}

#[test]
fn update_by_stranger_unauthorized() {
    let mut store = store_with_blog();
    let ctx = UpdateBlog { signer: bob(), owner: alice() };
    let r = update_blog(&mut store, &ctx, s("post"), s("Hacked"), s("x"), 0);
    assert_eq!(r, Err(StoreError::Unauthorized));
    let b = get_blog(&store, &alice(), &s("post")).unwrap();
    assert_eq!(b.title(), "Hello");
    assert_eq!(b.content()[0], "first");

    assert!(create_comment(&mut store, &CreateComment { signer: alice() }, s("c"), s("post"), s("hi")).is_ok());
    let r = update_comment(&mut store, &UpdateComment { signer: bob(), owner: alice() }, s("c"), s("x"));
    assert_eq!(r, Err(StoreError::Unauthorized));
    assert_eq!(get_comment(&store, &alice(), &s("c")).unwrap().content(), "hi");

    assert!(create_author_info(&mut store, &CreateAuthorInfo { signer: alice() }, s("me")).is_ok());
    let r = update_author_info(&mut store, &UpdateAuthorInfo { signer: bob(), owner: alice() }, s("x"));
    assert_eq!(r, Err(StoreError::Unauthorized));
    assert_eq!(get_author_info(&store, &alice()).unwrap().intro(), "me");
}

#[test]
fn update_too_long_leaves_record() {
    let mut store = store_with_blog();
    let ctx = UpdateBlog { signer: alice(), owner: alice() };
    let r = update_blog(&mut store, &ctx, s("post"), "t".repeat(51), s("x"), 1);
    assert_eq!(r, Err(StoreError::FieldTooLong));
    let r = update_blog(&mut store, &ctx, s("post"), s("New"), "c".repeat(501), 1);
    assert_eq!(r, Err(StoreError::FieldTooLong));
    let b = get_blog(&store, &alice(), &s("post")).unwrap();
    assert_eq!(b.title(), "Hello");
    assert_eq!(b.content()[1], "");

    assert!(create_comment(&mut store, &CreateComment { signer: alice() }, s("c"), s("post"), s("hi")).is_ok());
    let r = update_comment(&mut store, &UpdateComment { signer: alice(), owner: alice() }, s("c"), "x".repeat(501));
    assert_eq!(r, Err(StoreError::FieldTooLong));
    assert_eq!(get_comment(&store, &alice(), &s("c")).unwrap().content(), "hi");
}

#[test]
fn update_by_owner() {
    let mut store = store_with_blog();
    let ctx = UpdateBlog { signer: alice(), owner: alice() };
    assert_eq!(update_blog(&mut store, &ctx, s("post"), s("New"), s("zero"), 0), Ok(()));
    let b = get_blog(&store, &alice(), &s("post")).unwrap();
    assert_eq!(b.title(), "New");
    assert_eq!(b.content()[0], "zero");

    assert!(create_comment(&mut store, &CreateComment { signer: alice() }, s("c"), s("post"), s("hi")).is_ok());
    assert_eq!(update_comment(&mut store, &UpdateComment { signer: alice(), owner: alice() }, s("c"), s("bye")), Ok(()));
    let c = get_comment(&store, &alice(), &s("c")).unwrap();
    assert_eq!(c.content(), "bye");
    assert_eq!(c.blog_id(), "post");

    assert!(create_author_info(&mut store, &CreateAuthorInfo { signer: alice() }, s("me")).is_ok());
    assert_eq!(update_author_info(&mut store, &UpdateAuthorInfo { signer: alice(), owner: alice() }, s("still me")), Ok(()));
    assert_eq!(get_author_info(&store, &alice()).unwrap().intro(), "still me");
}

#[test]
fn update_missing_not_found() {
    let mut store = RecordStore::new();
    let r = update_blog(&mut store, &UpdateBlog { signer: alice(), owner: alice() }, s("none"), s("t"), s("c"), 0);
    assert_eq!(r, Err(StoreError::NotFound));
    let r = update_comment(&mut store, &UpdateComment { signer: alice(), owner: alice() }, s("none"), s("c"));
    assert_eq!(r, Err(StoreError::NotFound));
    let r = update_author_info(&mut store, &UpdateAuthorInfo { signer: alice(), owner: alice() }, s("c"));
    assert_eq!(r, Err(StoreError::NotFound));
    let r = delete_blog(&mut store, &DeleteBlog { signer: alice(), owner: alice() }, s("none"));
    assert_eq!(r, Err(StoreError::NotFound));
}

#[test]
fn slot_index_bounds() {
    let mut store = store_with_blog();
    let ctx = UpdateBlog { signer: alice(), owner: alice() };
    let r = update_blog(&mut store, &ctx, s("post"), s("Hello"), s("late"), 20);
    assert_eq!(r, Err(StoreError::IndexOutOfBounds));
    let r = update_blog(&mut store, &ctx, s("post"), s("Hello"), s("late"), u64::MAX);
    assert_eq!(r, Err(StoreError::IndexOutOfBounds));
    assert_eq!(update_blog(&mut store, &ctx, s("post"), s("Hello"), s("last"), 19), Ok(()));
    let b = get_blog(&store, &alice(), &s("post")).unwrap();
    assert_eq!(b.content().len(), 20);
    assert_eq!(b.content()[19], "last");
    assert_eq!(b.content()[0], "first");
    for k in 1..19 {
        assert_eq!(b.content()[k], "");
    }
}

#[test]
fn delete_then_recreate() {
    let mut store = store_with_blog();
    let r = delete_blog(&mut store, &DeleteBlog { signer: bob(), owner: alice() }, s("post"));
    assert_eq!(r, Err(StoreError::Unauthorized));
    assert_eq!(store.len(), 1);
    assert_eq!(delete_blog(&mut store, &DeleteBlog { signer: alice(), owner: alice() }, s("post")), Ok(()));
    assert_eq!(get_blog(&store, &alice(), &s("post")).unwrap_err(), StoreError::NotFound);
    assert_eq!(store.len(), 0);
    let r = create_blog(&mut store, &CreateBlog { signer: alice() }, s("post"), s("Again"), s("fresh"));
    assert!(r.is_ok());
    let b = get_blog(&store, &alice(), &s("post")).unwrap();
    assert_eq!(b.title(), "Again");
    assert_eq!(b.content()[0], "fresh");

    assert!(create_comment(&mut store, &CreateComment { signer: alice() }, s("c"), s("post"), s("hi")).is_ok());
    assert_eq!(delete_comment(&mut store, &DeleteComment { signer: bob(), owner: alice() }, s("c")), Err(StoreError::Unauthorized));
    assert_eq!(delete_comment(&mut store, &DeleteComment { signer: alice(), owner: alice() }, s("c")), Ok(()));
    assert_eq!(get_comment(&store, &alice(), &s("c")).unwrap_err(), StoreError::NotFound);

    assert!(create_author_info(&mut store, &CreateAuthorInfo { signer: alice() }, s("me")).is_ok());
    assert_eq!(delete_author_info(&mut store, &DeleteAuthorInfo { signer: alice(), owner: alice() }), Ok(()));
    assert_eq!(get_author_info(&store, &alice()).unwrap_err(), StoreError::NotFound);
    assert!(create_author_info(&mut store, &CreateAuthorInfo { signer: alice() }, s("new")).is_ok());
    assert_eq!(get_author_info(&store, &alice()).unwrap().intro(), "new");
}

#[test]
fn long_id_is_not_found() {
    let mut store = store_with_blog();
    let long = "x".repeat(33);
    assert_eq!(get_blog(&store, &alice(), &long).unwrap_err(), StoreError::NotFound);
    assert_eq!(get_comment(&store, &alice(), &long).unwrap_err(), StoreError::NotFound);
    let r = update_blog(&mut store, &UpdateBlog { signer: alice(), owner: alice() }, long.clone(), s("t"), s("c"), 0);
    assert_eq!(r, Err(StoreError::NotFound));
    let r = delete_blog(&mut store, &DeleteBlog { signer: alice(), owner: alice() }, long.clone());
    assert_eq!(r, Err(StoreError::NotFound));
    let r = update_comment(&mut store, &UpdateComment { signer: alice(), owner: alice() }, long.clone(), s("c"));
    assert_eq!(r, Err(StoreError::NotFound));
    let r = delete_comment(&mut store, &DeleteComment { signer: alice(), owner: alice() }, long);
    assert_eq!(r, Err(StoreError::NotFound));
    assert_eq!(store.len(), 1);
}

#[test]
fn create_returns_address() {
    let mut store = RecordStore::new();
    let a = create_blog(&mut store, &CreateBlog { signer: alice() }, s("post"), s("t"), s("c")).unwrap();
    assert_eq!(a, derive_address(BLOG_TAG, &alice(), "post"));
    let c = create_comment(&mut store, &CreateComment { signer: alice() }, s("post"), s("post"), s("c")).unwrap();
    assert_eq!(c, derive_address(COMMENT_TAG, &alice(), "post"));
    assert_ne!(a, c);
    let p = create_author_info(&mut store, &CreateAuthorInfo { signer: bob() }, s("me")).unwrap();
    assert_eq!(p, derive_address(AUTHOR_INFO_TAG, &bob(), ""));
}

#[test]
fn address_layout() {
    let a = derive_address(BLOG_TAG, &alice(), "ab");
    let mut expected = vec![BLOG_TAG];
    expected.extend_from_slice(&[1u8; 32]);
    expected.extend_from_slice(b"ab");
    assert_eq!(a, expected);
    let p = derive_address(AUTHOR_INFO_TAG, &bob(), "");
    assert_eq!(p.len(), 33);
    assert_eq!(p[0], AUTHOR_INFO_TAG);
    assert_eq!(p[32], 2);
}

#[test]
fn identity_comparison() {
    assert!(alice().same_as(&alice()));
    assert!(!alice().same_as(&bob()));
    let mut bytes = [1u8; 32];
    bytes[31] = 9;
    assert!(!alice().same_as(&Identity::new(bytes)));
}
