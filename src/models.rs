//! The records the blog keeps: identifiers, statuses and rows. Their storage
//! is the persistence layer's business; these are the plain values.

use vstd::prelude::*;

verus! {

/// A row identifier; zero stands for "no row".
#[derive(Clone, Copy, Debug, PartialEq, Eq, Structural, Hash)]
pub struct BlogId(pub i32);

impl BlogId {
    pub fn none() -> (r: Self)
        ensures
            r.0 == 0,
    {
        BlogId(0)
    }

    pub fn is_none(self) -> (r: bool)
        ensures
            r == (self.0 == 0),
    {
        self.0 == 0
    }
}

/// A row identifier; zero stands for "no row".
#[derive(Clone, Copy, Debug, PartialEq, Eq, Structural, Hash)]
pub struct AuthorId(pub i32);

impl AuthorId {
    pub fn none() -> (r: Self)
        ensures
            r.0 == 0,
    {
        AuthorId(0)
    }

    pub fn is_none(self) -> (r: bool)
        ensures
            r == (self.0 == 0),
    {
        self.0 == 0
    }
}

/// A row identifier; zero stands for "no row".
#[derive(Clone, Copy, Debug, PartialEq, Eq, Structural, Hash)]
pub struct PostId(pub i64);

impl PostId {
    pub fn none() -> (r: Self)
        ensures
            r.0 == 0,
    {
        PostId(0)
    }

    pub fn is_none(self) -> (r: bool)
        ensures
            r == (self.0 == 0),
    {
        self.0 == 0
    }
}

/// A row identifier; zero stands for "no row".
#[derive(Clone, Copy, Debug, PartialEq, Eq, Structural, Hash)]
pub struct CommentId(pub i64);

impl CommentId {
    pub fn none() -> (r: Self)
        ensures
            r.0 == 0,
    {
        CommentId(0)
    }

    pub fn is_none(self) -> (r: bool)
        ensures
            r == (self.0 == 0),
    {
        self.0 == 0
    }
}

/// A row identifier; zero stands for "no row".
#[derive(Clone, Copy, Debug, PartialEq, Eq, Structural, Hash)]
pub struct TagId(pub i64);

impl TagId {
    pub fn none() -> (r: Self)
        ensures
            r.0 == 0,
    {
        TagId(0)
    }

    pub fn is_none(self) -> (r: bool)
        ensures
            r == (self.0 == 0),
    {
        self.0 == 0
    }
}

/// A row identifier; zero stands for "no row".
#[derive(Clone, Copy, Debug, PartialEq, Eq, Structural, Hash)]
pub struct CategoryId(pub i64);

impl CategoryId {
    pub fn none() -> (r: Self)
        ensures
            r.0 == 0,
    {
        CategoryId(0)
    }

    pub fn is_none(self) -> (r: bool)
        ensures
            r == (self.0 == 0),
    {
        self.0 == 0
    }
}

/// A row identifier; zero stands for "no row".
#[derive(Clone, Copy, Debug, PartialEq, Eq, Structural, Hash)]
pub struct PostTagId(pub i64);

impl PostTagId {
    pub fn none() -> (r: Self)
        ensures
            r.0 == 0,
    {
        PostTagId(0)
    }

    pub fn is_none(self) -> (r: bool)
        ensures
            r == (self.0 == 0),
    {
        self.0 == 0
    }
}

/// A row identifier; zero stands for "no row".
#[derive(Clone, Copy, Debug, PartialEq, Eq, Structural, Hash)]
pub struct PostCategoryId(pub i64);

impl PostCategoryId {
    pub fn none() -> (r: Self)
        ensures
            r.0 == 0,
    {
        PostCategoryId(0)
    }

    pub fn is_none(self) -> (r: bool)
        ensures
            r == (self.0 == 0),
    {
        self.0 == 0
    }
}

/// An identifier issued by the hosting platform, as its 128 bits.
#[derive(Clone, Copy, Debug, PartialEq, Eq, Structural, Hash)]
pub struct MemberUuid(pub u128);

/// An identifier issued by the hosting platform, as its 128 bits.
#[derive(Clone, Copy, Debug, PartialEq, Eq, Structural, Hash)]
pub struct WebsiteUuid(pub u128);

/// Whether a post is visible.
#[derive(Clone, Copy, Debug, PartialEq, Eq, Structural)]
pub enum PostStatus {
    Draft,
    Published,
}

impl PostStatus {
    /// The stored code: the position in the declaration.
    pub open spec fn spec_code(self) -> u8 {
        match self {
            PostStatus::Draft => 0,
            PostStatus::Published => 1,
        }
    }

    pub fn code(self) -> (r: u8)
        ensures
            r == self.spec_code(),
    {
        match self {
            PostStatus::Draft => 0,
            PostStatus::Published => 1,
        }
    }

    /// The value with the stored code `code`, if there is one.
    pub fn from_code(code: u8) -> (r: Option<Self>)
        ensures
            r is Some <==> code < 2,
            r is Some ==> r.unwrap().spec_code() == code,
    {
        if code == 0 {
            Some(PostStatus::Draft)
        } else if code == 1 {
            Some(PostStatus::Published)
        } else {
            None
        }
    }
}

/// Where a comment stands in moderation.
#[derive(Clone, Copy, Debug, PartialEq, Eq, Structural)]
pub enum CommentStatus {
    Pending,
    Approved,
    Denied,
}

impl CommentStatus {
    /// The stored code: the position in the declaration.
    pub open spec fn spec_code(self) -> u8 {
        match self {
            CommentStatus::Pending => 0,
            CommentStatus::Approved => 1,
            CommentStatus::Denied => 2,
        }
    }

    pub fn code(self) -> (r: u8)
        ensures
            r == self.spec_code(),
    {
        match self {
            CommentStatus::Pending => 0,
            CommentStatus::Approved => 1,
            CommentStatus::Denied => 2,
        }
    }

    /// The value with the stored code `code`, if there is one.
    pub fn from_code(code: u8) -> (r: Option<Self>)
        ensures
            r is Some <==> code < 3,
            r is Some ==> r.unwrap().spec_code() == code,
    {
        if code == 0 {
            Some(CommentStatus::Pending)
        } else if code == 1 {
            Some(CommentStatus::Approved)
        } else if code == 2 {
            Some(CommentStatus::Denied)
        } else {
            None
        }
    }
}

/// Whether a blog has finished its setup.
#[derive(Clone, Copy, Debug, PartialEq, Eq, Structural)]
pub enum SetupPosition {
    Done,
    NotStarted,
}

impl SetupPosition {
    /// The stored code: the position in the declaration.
    pub open spec fn spec_code(self) -> u8 {
        match self {
            SetupPosition::Done => 0,
            SetupPosition::NotStarted => 1,
        }
    }

    pub fn code(self) -> (r: u8)
        ensures
            r == self.spec_code(),
    {
        match self {
            SetupPosition::Done => 0,
            SetupPosition::NotStarted => 1,
        }
    }

    /// The value with the stored code `code`, if there is one.
    pub fn from_code(code: u8) -> (r: Option<Self>)
        ensures
            r is Some <==> code < 2,
            r is Some ==> r.unwrap().spec_code() == code,
    {
        if code == 0 {
            Some(SetupPosition::Done)
        } else if code == 1 {
            Some(SetupPosition::NotStarted)
        } else {
            None
        }
    }
}

pub struct NewAuthorModel {
    pub blog_id: WebsiteUuid,
    pub external_member_id: MemberUuid,
    pub name: String,
    pub email: Option<String>,
}

pub struct AuthorModel {
    pub id: AuthorId,
    pub blog_id: WebsiteUuid,
    pub external_member_id: MemberUuid,
    pub name: String,
    pub email: Option<String>,
}

pub struct NewCategoryModel {
    pub name: String,
}

pub struct CategoryModel {
    pub id: CategoryId,
    pub name: String,
}

pub struct NewTagModel {
    pub name: String,
}

pub struct TagModel {
    pub id: TagId,
    pub name: String,
}

pub struct PostTagModel {
    pub blog_id: BlogId,
    pub post_id: PostId,
    pub tag_id: TagId,
}

pub struct PostCategoryModel {
    pub blog_id: BlogId,
    pub post_id: PostId,
    pub category_id: CategoryId,
}

} // verus!
