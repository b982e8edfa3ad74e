//! The entity records of the social graph and their mathematical views.
//!
//! Every record is a fixed-layout value living at a derived address in the
//! store. Each exec record type has a spec-level view type whose fields are
//! abstract sequences, so that contracts can pin record contents down exactly.

use vstd::prelude::*;

verus! {

/// Profile record: one per owning identity.
pub struct UserAccount {
    pub authority: Vec<u8>,
    pub username: String,
    pub post_count: u64,
    pub followers: u32,
    pub following: u32,
    pub bio: String,
    pub profile_picture: String,
    pub created_at: i64,
    pub updated_at: i64,
    pub is_verified: bool,
    pub is_private: bool,
    pub is_active: bool,
    pub bump: u8,
}

/// Spec view of a `UserAccount`.
pub struct UserV {
    pub authority: Seq<u8>,
    pub username: Seq<char>,
    pub post_count: u64,
    pub followers: u32,
    pub following: u32,
    pub bio: Seq<char>,
    pub profile_picture: Seq<char>,
    pub created_at: i64,
    pub updated_at: i64,
    pub is_verified: bool,
    pub is_private: bool,
    pub is_active: bool,
    pub bump: u8,
}

impl View for UserAccount {
    type V = UserV;

    open spec fn view(&self) -> UserV {
        UserV {
            authority: self.authority@,
            username: self.username@,
            post_count: self.post_count,
            followers: self.followers,
            following: self.following,
            bio: self.bio@,
            profile_picture: self.profile_picture@,
            created_at: self.created_at,
            updated_at: self.updated_at,
            is_verified: self.is_verified,
            is_private: self.is_private,
            is_active: self.is_active,
            bump: self.bump,
        }
    }
}

/// Content record: belongs to one `UserAccount`; its `post_id` is the
/// author's `post_count` at creation time and never changes.
pub struct Post {
    pub authority: Vec<u8>,
    pub content: String,
    pub likes: u64,
    pub comment_count: u64,
    pub post_id: u64,
    pub created_at: i64,
}

/// Spec view of a `Post`.
pub struct PostV {
    pub authority: Seq<u8>,
    pub content: Seq<char>,
    pub likes: u64,
    pub comment_count: u64,
    pub post_id: u64,
    pub created_at: i64,
}

impl View for Post {
    type V = PostV;

    open spec fn view(&self) -> PostV {
        PostV {
            authority: self.authority@,
            content: self.content@,
            likes: self.likes,
            comment_count: self.comment_count,
            post_id: self.post_id,
            created_at: self.created_at,
        }
    }
}

/// At most one per (liker identity, post) pair, enforced by its derived
/// address.
pub struct Like {
    pub authority: Vec<u8>,
    pub post: Vec<u8>,
    pub created_at: i64,
}

/// Spec view of a `Like`.
pub struct LikeV {
    pub authority: Seq<u8>,
    pub post: Seq<u8>,
    pub created_at: i64,
}

impl View for Like {
    type V = LikeV;

    open spec fn view(&self) -> LikeV {
        LikeV { authority: self.authority@, post: self.post@, created_at: self.created_at }
    }
}

/// Belongs to one `Post`; its `comment_id` is the post's `comment_count` at
/// creation time.
pub struct Comment {
    pub authority: Vec<u8>,
    pub post: Vec<u8>,
    pub content: String,
    pub comment_id: u64,
    pub created_at: i64,
}

/// Spec view of a `Comment`.
pub struct CommentV {
    pub authority: Seq<u8>,
    pub post: Seq<u8>,
    pub content: Seq<char>,
    pub comment_id: u64,
    pub created_at: i64,
}

impl View for Comment {
    type V = CommentV;

    open spec fn view(&self) -> CommentV {
        CommentV {
            authority: self.authority@,
            post: self.post@,
            content: self.content@,
            comment_id: self.comment_id,
            created_at: self.created_at,
        }
    }
}

/// A time-boxed delegation of signing power from `authority` to
/// `session_key`. The `is_active` flag flips true to false exactly once, on
/// refund; the record itself is removed only on close.
pub struct Session {
    pub authority: Vec<u8>,
    pub session_key: Vec<u8>,
    pub expired_at: i64,
    pub created_at: i64,
    pub is_active: bool,
}

/// Spec view of a `Session`.
pub struct SessionV {
    pub authority: Seq<u8>,
    pub session_key: Seq<u8>,
    pub expired_at: i64,
    pub created_at: i64,
    pub is_active: bool,
}

impl View for Session {
    type V = SessionV;

    open spec fn view(&self) -> SessionV {
        SessionV {
            authority: self.authority@,
            session_key: self.session_key@,
            expired_at: self.expired_at,
            created_at: self.created_at,
            is_active: self.is_active,
        }
    }
}

/// A typed record in the store, discriminated by its variant.
pub enum Record {
    User(UserAccount),
    Post(Post),
    Like(Like),
    Comment(Comment),
    Session(Session),
}

/// Spec view of a `Record`.
pub enum RecordV {
    User(UserV),
    Post(PostV),
    Like(LikeV),
    Comment(CommentV),
    Session(SessionV),
}

impl View for Record {
    type V = RecordV;

    open spec fn view(&self) -> RecordV {
        match self {
            Record::User(u) => RecordV::User(u@),
            Record::Post(p) => RecordV::Post(p@),
            Record::Like(l) => RecordV::Like(l@),
            Record::Comment(c) => RecordV::Comment(c@),
            Record::Session(s) => RecordV::Session(s@),
        }
    }
}

/// One action of a batch call: each consumes two positional handles from the
/// flat handle list, the target post first and then the pre-created like or
/// comment record to fill in.
pub enum BatchAction {
    Like { post_key: Vec<u8> },
    Comment { post_key: Vec<u8>, content: String },
}

/// Spec view of a `BatchAction`.
pub enum BatchActionV {
    Like { post_key: Seq<u8> },
    Comment { post_key: Seq<u8>, content: Seq<char> },
}

impl View for BatchAction {
    type V = BatchActionV;

    open spec fn view(&self) -> BatchActionV {
        match self {
            BatchAction::Like { post_key } => BatchActionV::Like { post_key: post_key@ },
            BatchAction::Comment { post_key, content } => BatchActionV::Comment {
                post_key: post_key@,
                content: content@,
            },
        }
    }
}

/// Why an operation was rejected. Every error aborts the whole call: the
/// state is left exactly as it was.
///
/// `SessionExpired`, `ContentTooLong` and `RefundTooEarly` are reserved: they
/// are part of the taxonomy but no operation currently raises them.
#[derive(Clone, Copy, Debug, PartialEq, Eq, Structural)]
pub enum SocialMediaError {
    SessionExpired,
    InvalidSession,
    ContentTooLong,
    RefundTooEarly,
    SessionNotActive,
    CannotCloseSession,
    UnauthorizedAccess,
    AddressAlreadyInUse,
    AddressNotFound,
    WrongRecordKind,
    NotEnoughAccountKeys,
    InsufficientFunds,
    Overflow,
    AddressDerivationFailed,
}

} // verus!
