use blog_store::blog::{create_blog, get_blog, CreateBlog};
use blog_store::encoding::{encode, AUTHOR_INFO_CAPACITY, BLOG_CAPACITY, COMMENT_CAPACITY};
use blog_store::identity::Identity;
use blog_store::record::{AuthorInfo, Comment, Record};
use blog_store::store::RecordStore;

#[test]
fn encode_author_info_bytes() {
    let r = Record::AuthorInfo(AuthorInfo { owner: Identity::new([7u8; 32]), intro: "hi".to_string() });
    let mut expected = vec![3u8];
    expected.extend_from_slice(&[7u8; 32]);
    expected.extend_from_slice(&[2, 0, 0, 0]);
    expected.extend_from_slice(b"hi");
    assert_eq!(encode(&r), expected);
}

#[test]
fn encode_comment_bytes() {
    let r = Record::Comment(Comment {
        owner: Identity::new([0u8; 32]),
        id: "c".to_string(),
        blog_id: "b".to_string(),
        content: "é".to_string(),
    });
    let e = encode(&r);
    assert_eq!(e[0], 2);
    assert_eq!(&e[33..], &[1, 0, 0, 0, b'c', 1, 0, 0, 0, b'b', 2, 0, 0, 0, 0xc3, 0xa9][..]);
}

#[test]
fn encode_blog_layout() {
    let mut store = RecordStore::new();
    let owner = Identity::new([5u8; 32]);
    assert!(create_blog(&mut store, &CreateBlog { signer: owner }, "id".to_string(), "title".to_string(), "hello".to_string()).is_ok());
    let b = get_blog(&store, &owner, &"id".to_string()).unwrap();
    let e = encode(&Record::Blog(b));
    assert_eq!(e.len(), 1 + 32 + (4 + 2) + (4 + 5) + 4 + (4 + 5) + 19 * 4);
    assert_eq!(e[0], 1);
    // slot count after tag, owner, id and title
    assert_eq!(&e[48..52], &[20, 0, 0, 0]);
    assert_eq!(&e[52..61], &[5, 0, 0, 0, b'h', b'e', b'l', b'l', b'o']);
}

#[test]
fn full_records_fill_capacity() {
    let mut store = RecordStore::new();
    let owner = Identity::new([9u8; 32]);
    let id = "i".repeat(32);
    assert!(create_blog(&mut store, &CreateBlog { signer: owner }, id.clone(), "t".repeat(50), "c".repeat(500)).is_ok());
    let mut b = get_blog(&store, &owner, &id).unwrap();
    for k in 1..20 {
        b.content[k] = "c".repeat(500);
    }
    assert_eq!(encode(&Record::Blog(b)).len(), BLOG_CAPACITY);
    let c = Record::Comment(Comment { owner, id: "i".repeat(32), blog_id: "b".repeat(32), content: "x".repeat(500) });
    assert_eq!(encode(&c).len(), COMMENT_CAPACITY);
    let a = Record::AuthorInfo(AuthorInfo { owner, intro: "x".repeat(500) });
    assert_eq!(encode(&a).len(), AUTHOR_INFO_CAPACITY);
}
