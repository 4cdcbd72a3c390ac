//! The records that the board stores and hands out, with the mathematical
//! rows they denote.

use vstd::prelude::*;

verus! {

/// What a stored session denotes: the token that proves it and the instant,
/// in seconds since the epoch, at which it lapses.
pub struct SessionRow {
    pub token: Seq<char>,
    pub expiry: u64,
}

/// What a stored message denotes.
pub struct PostRow {
    pub post_num: u64,
    pub user: Seq<char>,
    pub message: Seq<char>,
    pub time: Seq<char>,
}

/// The current session of one user.
#[derive(Debug, Clone, PartialEq)]
pub struct Session {
    pub token: String,
    pub expiry: u64,
}

impl View for Session {
    type V = SessionRow;

    open spec fn view(&self) -> SessionRow {
        SessionRow { token: self.token@, expiry: self.expiry }
    }
}

/// A message as it is read back from the log.
#[derive(Debug, Clone, PartialEq)]
pub struct Post {
    pub post_num: u64,
    pub user: String,
    pub message: String,
    pub time: String,
}

impl View for Post {
    type V = PostRow;

    open spec fn view(&self) -> PostRow {
        PostRow {
            post_num: self.post_num,
            user: self.user@,
            message: self.message@,
            time: self.time@,
        }
    }
}

/// A message as it is handed to the log, before a number is assigned to it.
#[derive(Debug, Clone, PartialEq)]
pub struct InsertPost {
    pub user: String,
    pub message: String,
    pub time: String,
}

impl InsertPost {
    /// The row this message becomes once the log has numbered it.
    pub open spec fn numbered(&self, post_num: u64) -> PostRow {
        PostRow { post_num, user: self.user@, message: self.message@, time: self.time@ }
    }
}

/// The rows that a sequence of posts denotes, in the same order.
pub open spec fn rows_of(posts: Seq<Post>) -> Seq<PostRow> {
    posts.map_values(|p: Post| p@)
}

/// The text inside an optional string.
pub open spec fn text_of(s: Option<String>) -> Option<Seq<char>> {
    match s {
        Some(t) => Some(t@),
        None => None,
    }
}

/// The row inside an optional session.
pub open spec fn row_of(s: Option<Session>) -> Option<SessionRow> {
    match s {
        Some(t) => Some(t@),
        None => None,
    }
}

} // verus!
