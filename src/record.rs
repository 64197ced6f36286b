use vstd::prelude::*;
use crate::identity::{Identity, IDENTITY_LEN};
use crate::address::{
    address_of, byte_len, bytes_of, AUTHOR_INFO_TAG, BLOG_TAG, COMMENT_TAG, COUNTER_TAG,
};
use crate::counter::Counter;

verus! {

/// Longest record id, in bytes.
pub const MAX_ID_LEN: usize = 32;

/// Longest blog title, in bytes.
pub const MAX_TITLE_LEN: usize = 50;

/// Number of content slots of a blog.
pub const CONTENT_SLOTS: usize = 20;

/// Longest content of one blog slot, in bytes.
pub const MAX_SLOT_LEN: usize = 500;

/// Longest comment body, in bytes.
pub const MAX_COMMENT_LEN: usize = 500;

/// Longest author introduction, in bytes.
pub const MAX_INTRO_LEN: usize = 500;

/// A blog post: a title and a fixed number of content slots.
#[derive(Debug)]
pub struct Blog {
    pub owner: Identity,
    pub id: String,
    pub title: String,
    pub content: Vec<String>,
}

/// A comment attached to a blog by the blog's id.
#[derive(Debug)]
pub struct Comment {
    pub owner: Identity,
    pub id: String,
    pub blog_id: String,
    pub content: String,
}

/// An author's profile; each owner has at most one.
#[derive(Debug)]
pub struct AuthorInfo {
    pub owner: Identity,
    pub intro: String,
}

/// Any stored record.
#[derive(Debug)]
pub enum Record {
    Blog(Blog),
    Comment(Comment),
    AuthorInfo(AuthorInfo),
    Counter(Counter),
}

pub struct BlogView {
    pub owner: Seq<u8>,
    pub id: Seq<char>,
    pub title: Seq<char>,
    pub content: Seq<Seq<char>>,
}

pub struct CommentView {
    pub owner: Seq<u8>,
    pub id: Seq<char>,
    pub blog_id: Seq<char>,
    pub content: Seq<char>,
}

pub struct AuthorInfoView {
    pub owner: Seq<u8>,
    pub intro: Seq<char>,
}

pub enum RecordView {
    Blog(BlogView),
    Comment(CommentView),
    AuthorInfo(AuthorInfoView),
    Counter(u8),
}

/// The shape every stored record keeps: each string field within its
/// declared maximum length, and a blog with exactly its fixed number of
/// content slots.
pub open spec fn record_wf(r: RecordView) -> bool {
    match r {
        RecordView::Blog(b) => {
            &&& b.owner.len() == IDENTITY_LEN
            &&& byte_len(b.id) <= MAX_ID_LEN
            &&& byte_len(b.title) <= MAX_TITLE_LEN
            &&& b.content.len() == CONTENT_SLOTS
            &&& forall|k: int| 0 <= k < b.content.len() ==> byte_len(#[trigger] b.content[k]) <= MAX_SLOT_LEN
        },
        RecordView::Comment(c) => {
            &&& c.owner.len() == IDENTITY_LEN
            &&& byte_len(c.id) <= MAX_ID_LEN
            &&& byte_len(c.blog_id) <= MAX_ID_LEN
            &&& byte_len(c.content) <= MAX_COMMENT_LEN
        },
        RecordView::AuthorInfo(a) => {
            &&& a.owner.len() == IDENTITY_LEN
            &&& byte_len(a.intro) <= MAX_INTRO_LEN
        },
        RecordView::Counter(_) => true,
    }
}

/// The address at which `r` belongs: derived from its kind, owner and id.
/// A profile has no id, and the counter has neither owner nor id.
pub open spec fn home_address(r: RecordView) -> Seq<u8> {
    match r {
        RecordView::Blog(b) => address_of(BLOG_TAG, b.owner, bytes_of(b.id)),
        RecordView::Comment(c) => address_of(COMMENT_TAG, c.owner, bytes_of(c.id)),
        RecordView::AuthorInfo(a) => address_of(
            AUTHOR_INFO_TAG,
            a.owner,
            bytes_of(Seq::<char>::empty()),
        ),
        RecordView::Counter(_) => seq![COUNTER_TAG],
    }
}

/// The contents of a list of strings.
pub open spec fn strings_view(v: Seq<String>) -> Seq<Seq<char>> {
    v.map_values(|s: String| s@)
}

impl View for Blog {
    type V = BlogView;

    open spec fn view(&self) -> BlogView {
        BlogView {
            owner: self.owner@,
            id: self.id@,
            title: self.title@,
            content: strings_view(self.content@),
        }
    }
}

impl View for Comment {
    type V = CommentView;

    open spec fn view(&self) -> CommentView {
        CommentView {
            owner: self.owner@,
            id: self.id@,
            blog_id: self.blog_id@,
            content: self.content@,
        }
    }
}

impl View for AuthorInfo {
    type V = AuthorInfoView;

    open spec fn view(&self) -> AuthorInfoView {
        AuthorInfoView { owner: self.owner@, intro: self.intro@ }
    }
}

impl View for Record {
    type V = RecordView;

    open spec fn view(&self) -> RecordView {
        match self {
            Record::Blog(b) => RecordView::Blog(b@),
            Record::Comment(c) => RecordView::Comment(c@),
            Record::AuthorInfo(a) => RecordView::AuthorInfo(a@),
            Record::Counter(c) => RecordView::Counter(c.value()),
        }
    }
}

/// Whether `s` is at most `max` bytes long.
pub fn fits(s: &String, max: usize) -> (r: bool)
    ensures
        r == (byte_len(s@) <= max),
{
    s.as_str().as_bytes().len() <= max
}

/// Copies a list of strings.
pub(crate) fn copy_strings(v: &Vec<String>) -> (r: Vec<String>)
    ensures
        r@ == v@,
{
    let mut r: Vec<String> = Vec::new();
    let mut i: usize = 0;
    while i < v.len()
        invariant
            i <= v@.len(),
            r@ == v@.subrange(0, i as int),
        decreases v@.len() - i,
    {
        r.push(v[i].clone());
        assert(v@.subrange(0, i + 1) == v@.subrange(0, i as int).push(v@[i as int]));
        i = i + 1;
    }
    assert(v@.subrange(0, v@.len() as int) == v@);
    r
}

impl Blog {
    pub fn owner(&self) -> (r: Identity)
        ensures
            r@ == self@.owner,
    {
        self.owner
    }

    pub fn id(&self) -> (r: &String)
        ensures
            r@ == self@.id,
    {
        &self.id
    }

    pub fn title(&self) -> (r: &String)
        ensures
            r@ == self@.title,
    {
        &self.title
    }

    /// The content slots, in order.
    pub fn content(&self) -> (r: &Vec<String>)
        ensures
            strings_view(r@) == self@.content,
    {
        &self.content
    }

    /// A copy of this blog.
    pub fn duplicate(&self) -> (r: Blog)
        ensures
            r@ == self@,
    {
        Blog {
            owner: self.owner,
            id: self.id.clone(),
            title: self.title.clone(),
            content: copy_strings(&self.content),
        }
    }
}

impl Comment {
    pub fn owner(&self) -> (r: Identity)
        ensures
            r@ == self@.owner,
    {
        self.owner
    }

    pub fn id(&self) -> (r: &String)
        ensures
            r@ == self@.id,
    {
        &self.id
    }

    pub fn blog_id(&self) -> (r: &String)
        ensures
            r@ == self@.blog_id,
    {
        &self.blog_id
    }

    pub fn content(&self) -> (r: &String)
        ensures
            r@ == self@.content,
    {
        &self.content
    }

    /// A copy of this comment.
    pub fn duplicate(&self) -> (r: Comment)
        ensures
            r@ == self@,
    {
        Comment {
            owner: self.owner,
            id: self.id.clone(),
            blog_id: self.blog_id.clone(),
            content: self.content.clone(),
        }
    }
}

impl AuthorInfo {
    pub fn owner(&self) -> (r: Identity)
        ensures
            r@ == self@.owner,
    {
        self.owner
    }

    pub fn intro(&self) -> (r: &String)
        ensures
            r@ == self@.intro,
    {
        &self.intro
    }

    /// A copy of this profile.
    pub fn duplicate(&self) -> (r: AuthorInfo)
        ensures
            r@ == self@,
    {
        AuthorInfo { owner: self.owner, intro: self.intro.clone() }
    }
}

} // verus!
