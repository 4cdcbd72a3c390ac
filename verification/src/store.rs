//! The three tables of the board as a mathematical value, and the interface
//! that every storage backend offers over them.

use vstd::prelude::*;
use crate::types::{InsertPost, Post, PostRow, Session, SessionRow, rows_of, row_of, text_of};

verus! {

/// Why a storage operation did not take place.
#[derive(Debug, Clone, Copy, PartialEq, Eq, Structural)]
pub enum StoreError {
    /// A uniqueness constraint refused the write.
    Conflict,
    /// The storage layer itself failed.
    Failure,
}

/// The contents of the credential, session and message tables.
#[verifier::ext_equal]
pub struct Tables {
    /// Username to encoded password record.
    pub users: Map<Seq<char>, Seq<char>>,
    /// Username to its one session.
    pub sessions: Map<Seq<char>, SessionRow>,
    /// The message log, oldest first.
    pub posts: Seq<PostRow>,
    /// The number that the next accepted message receives.
    pub next_post_num: nat,
}

impl Tables {
    /// The tables of a board on which nothing has happened yet.
    pub open spec fn empty() -> Tables {
        Tables { users: Map::empty(), sessions: Map::empty(), posts: Seq::empty(), next_post_num: 1 }
    }

    /// What storage guarantees at all times: no token is held by two users,
    /// and message numbers are positive, strictly increasing and below the
    /// next number to be assigned.
    pub open spec fn wf(self) -> bool {
        &&& 1 <= self.next_post_num <= u64::MAX
        &&& forall|a: Seq<char>, b: Seq<char>|
            self.sessions.contains_key(a) && self.sessions.contains_key(b)
                && #[trigger] self.sessions[a].token == #[trigger] self.sessions[b].token ==> a == b
        &&& forall|i: int|
            0 <= i < self.posts.len() ==> 1 <= (#[trigger] self.posts[i]).post_num
                < self.next_post_num
        &&& forall|i: int, j: int|
            0 <= i < j < self.posts.len() ==> (#[trigger] self.posts[i]).post_num
                < (#[trigger] self.posts[j]).post_num
    }

    /// Whether `username` currently holds `token`.
    pub open spec fn holds(self, username: Seq<char>, token: Seq<char>) -> bool {
        self.sessions.contains_key(username) && self.sessions[username].token == token
    }

    /// The user who holds `token`, if anyone does.
    pub open spec fn holder(self, token: Seq<char>) -> Option<Seq<char>> {
        if exists|u: Seq<char>| self.holds(u, token) {
            Some(choose|u: Seq<char>| self.holds(u, token))
        } else {
            None
        }
    }

    /// Whether storing `token` for `username` would leave every token with
    /// one holder: nobody else holds it.
    pub open spec fn token_free_for(self, username: Seq<char>, token: Seq<char>) -> bool {
        forall|other: Seq<char>| #[trigger] self.holds(other, token) ==> other == username
    }

    /// Whether `token`, presented at `now`, proves a live session of
    /// `username`: the user has a session, its token is exactly the one
    /// presented, and it has not lapsed.
    pub open spec fn grants(self, username: Seq<char>, token: Seq<char>, now: u64) -> bool {
        self.holds(username, token) && now < self.sessions[username].expiry
    }

    /// The tables after `username` was registered with `record`.
    pub open spec fn with_user(self, username: Seq<char>, record: Seq<char>) -> Tables {
        Tables { users: self.users.insert(username, record), ..self }
    }

    /// The tables after the session of `username` was replaced by `row`.
    pub open spec fn with_session(self, username: Seq<char>, row: SessionRow) -> Tables {
        Tables { sessions: self.sessions.insert(username, row), ..self }
    }

    /// The tables after the session of `username`, if any, was deleted.
    pub open spec fn without_session(self, username: Seq<char>) -> Tables {
        Tables { sessions: self.sessions.remove(username), ..self }
    }

    /// The tables after `row` was appended to the log and the next number
    /// moved on.
    pub open spec fn with_row(self, row: PostRow) -> Tables {
        Tables { posts: self.posts.push(row), next_post_num: self.next_post_num + 1, ..self }
    }

    /// The tables after a message was appended under the next number.
    pub open spec fn with_post(self, user: Seq<char>, message: Seq<char>, time: Seq<char>) -> Tables {
        self.with_row(PostRow { post_num: self.next_post_num as u64, user, message, time })
    }
}

/// The value stored under `key`, if there is one.
pub open spec fn lookup<V>(table: Map<Seq<char>, V>, key: Seq<char>) -> Option<V> {
    if table.contains_key(key) {
        Some(table[key])
    } else {
        None
    }
}

/// A storage backend for the board.
///
/// `tables()` is what the verifier may know of the contents. A backend whose
/// rows live in the program answers `Some`, and every operation is then
/// specified exactly. A backend whose rows live outside the program, where
/// other parties may change them, answers `None`; of such a backend the
/// operations promise only that it stays opaque.
pub trait Store {
    /// The backend's own consistency condition. Constructors establish it
    /// and every operation keeps it.
    spec fn inv(&self) -> bool;

    /// The contents, where the verifier may know them.
    spec fn tables(&self) -> Option<Tables>;

    /// Whatever is known of the contents of a consistent backend is
    /// well-formed.
    proof fn lemma_tables_wf(&self)
        requires
            self.inv(),
        ensures
            self.tables() is Some ==> self.tables().unwrap().wf(),
    ;

    /// Inserts a credential row. The username must be new: an existing row
    /// is never overwritten.
    fn insert_user(&mut self, username: &str, record: &str) -> (r: Result<(), StoreError>)
        requires
            old(self).inv(),
        ensures
            final(self).inv(),
            final(self).tables() is Some ==> final(self).tables().unwrap().wf(),
            old(self).tables() is None ==> final(self).tables() is None,
            old(self).tables() is Some ==> ({
                let t = old(self).tables().unwrap();
                &&& t.wf()
                &&& t.users.contains_key(username@) ==> r == Err::<(), StoreError>(
                    StoreError::Conflict,
                ) && final(self).tables() == Some(t)
                &&& !t.users.contains_key(username@) ==> r is Ok && final(self).tables() == Some(
                    t.with_user(username@, record@),
                )
            }),
    ;

    /// Looks up the password record stored for `username`. A lookup writes
    /// nothing, so it is never refused as a conflict.
    fn find_record(&self, username: &str) -> (r: Result<Option<String>, StoreError>)
        requires
            self.inv(),
        ensures
            r is Err ==> r == Err::<Option<String>, StoreError>(StoreError::Failure),
            self.tables() is Some ==> ({
                let t = self.tables().unwrap();
                &&& t.wf()
                &&& r is Ok
                &&& text_of(r.unwrap()) == lookup(t.users, username@)
            }),
    ;

    /// Replaces the session of `username` in one step: the old row, if any,
    /// goes and the new one comes, or nothing changes at all. The write is
    /// refused when another user holds `token`.
    fn put_session(&mut self, username: &str, token: &str, expiry: u64) -> (r: Result<
        (),
        StoreError,
    >)
        requires
            old(self).inv(),
        ensures
            final(self).inv(),
            final(self).tables() is Some ==> final(self).tables().unwrap().wf(),
            old(self).tables() is None ==> final(self).tables() is None,
            old(self).tables() is Some ==> ({
                let t = old(self).tables().unwrap();
                &&& t.wf()
                &&& t.token_free_for(username@, token@) ==> r is Ok && final(self).tables()
                    == Some(t.with_session(username@, SessionRow { token: token@, expiry }))
                &&& !t.token_free_for(username@, token@) ==> r == Err::<(), StoreError>(
                    StoreError::Conflict,
                ) && final(self).tables() == Some(t)
            }),
    ;

    /// Looks up the session of `username`. A lookup writes nothing, so it is
    /// never refused as a conflict.
    fn find_session(&self, username: &str) -> (r: Result<Option<Session>, StoreError>)
        requires
            self.inv(),
        ensures
            r is Err ==> r == Err::<Option<Session>, StoreError>(StoreError::Failure),
            self.tables() is Some ==> ({
                let t = self.tables().unwrap();
                &&& t.wf()
                &&& r is Ok
                &&& row_of(r.unwrap()) == lookup(t.sessions, username@)
            }),
    ;

    /// Looks up the user who holds `token`. A lookup writes nothing, so it
    /// is never refused as a conflict.
    fn find_holder(&self, token: &str) -> (r: Result<Option<String>, StoreError>)
        requires
            self.inv(),
        ensures
            r is Err ==> r == Err::<Option<String>, StoreError>(StoreError::Failure),
            self.tables() is Some ==> ({
                let t = self.tables().unwrap();
                &&& t.wf()
                &&& r is Ok
                &&& text_of(r.unwrap()) == t.holder(token@)
            }),
    ;

    /// Deletes the session of `username` and says whether there was one.
    fn delete_session(&mut self, username: &str) -> (r: Result<bool, StoreError>)
        requires
            old(self).inv(),
        ensures
            final(self).inv(),
            final(self).tables() is Some ==> final(self).tables().unwrap().wf(),
            old(self).tables() is None ==> final(self).tables() is None,
            old(self).tables() is Some ==> ({
                let t = old(self).tables().unwrap();
                &&& t.wf()
                &&& r == Ok::<bool, StoreError>(t.sessions.contains_key(username@))
                &&& final(self).tables() == Some(t.without_session(username@))
            }),
    ;

    /// Appends a message and returns the number assigned to it: numbers
    /// start at 1. On a backend whose contents are known it fails only when
    /// the numbers are used up.
    fn append_post(&mut self, post: &InsertPost) -> (r: Result<u64, StoreError>)
        requires
            old(self).inv(),
        ensures
            final(self).inv(),
            final(self).tables() is Some ==> final(self).tables().unwrap().wf(),
            r is Ok ==> r.unwrap() >= 1,
            old(self).tables() is None ==> final(self).tables() is None,
            old(self).tables() is Some ==> ({
                let t = old(self).tables().unwrap();
                &&& t.wf()
                &&& t.next_post_num < u64::MAX ==> r == Ok::<u64, StoreError>(
                    t.next_post_num as u64,
                ) && final(self).tables() == Some(
                    t.with_row(post.numbered(t.next_post_num as u64)),
                )
                &&& t.next_post_num >= u64::MAX ==> r == Err::<u64, StoreError>(
                    StoreError::Failure,
                ) && final(self).tables() == Some(t)
            }),
    ;

    /// Reads the whole log, oldest message first. Reading writes nothing,
    /// so it is never refused as a conflict.
    fn all_posts(&self) -> (r: Result<Vec<Post>, StoreError>)
        requires
            self.inv(),
        ensures
            r is Err ==> r == Err::<Vec<Post>, StoreError>(StoreError::Failure),
            self.tables() is Some ==> ({
                let t = self.tables().unwrap();
                &&& t.wf()
                &&& r is Ok
                &&& rows_of(r.unwrap()@) == t.posts
            }),
    ;
}

} // verus!
