//! The session authority: what registering, checking a password, issuing,
//! validating and revoking a session mean over the tables, and the functions
//! that carry them out on any storage backend.
//!
//! Every function states two things. On a backend whose contents the
//! verifier knows, it states the exact result and the exact tables
//! afterwards. On any backend, it states which failures can come at all.

use vstd::prelude::*;
use crate::clock::{get_time, get_two_days, SESSION_SECONDS};
use crate::hasher::{accepts, verify_hash};
use crate::store::{Store, StoreError, Tables};
use crate::token::{fresh_token, TOKEN_LENGTH};
use crate::text::same_text;
use crate::types::{InsertPost, Post, Session, SessionRow, rows_of};

verus! {

/// Why the board turned a request down.
#[derive(Debug, Clone, Copy, PartialEq, Eq, Structural)]
pub enum BoardError {
    /// A username or password is missing or empty.
    MalformedInput,
    /// The username is registered already.
    UsernameTaken,
    /// No user of that name is registered.
    UserDoesNotExist,
    /// The password does not match the stored record.
    WrongCredentials,
    /// The caller presented a token that is still valid for this user.
    AlreadyLoggedIn,
    /// No live session stands behind the request.
    Unauthenticated,
    /// Storage, the clock or the hasher failed.
    Internal,
}

/// The texts inside a result.
pub open spec fn text_in(r: Result<String, BoardError>) -> Result<Seq<char>, BoardError> {
    match r {
        Ok(s) => Ok(s@),
        Err(e) => Err(e),
    }
}

/// The rows inside a result.
pub open spec fn rows_in(r: Result<Vec<Post>, BoardError>) -> Result<
    Seq<crate::types::PostRow>,
    BoardError,
> {
    match r {
        Ok(posts) => Ok(rows_of(posts@)),
        Err(e) => Err(e),
    }
}

/// Registering `username`: refused when the name is taken.
pub open spec fn register_result(t: Tables, username: Seq<char>) -> Result<(), BoardError> {
    if t.users.contains_key(username) {
        Err(BoardError::UsernameTaken)
    } else {
        Ok(())
    }
}

/// The tables after an attempt to register `username` with `record`: a
/// stored record is never overwritten.
pub open spec fn register_tables(t: Tables, username: Seq<char>, record: Seq<char>) -> Tables {
    if t.users.contains_key(username) {
        t
    } else {
        t.with_user(username, record)
    }
}

/// Checking `password` for `username`: an unknown user is an error, a known
/// one gets the hasher's verdict on the stored record.
pub open spec fn password_result(t: Tables, username: Seq<char>, password: Seq<char>) -> Result<
    bool,
    BoardError,
> {
    if t.users.contains_key(username) {
        Ok(accepts(password, t.users[username]))
    } else {
        Err(BoardError::UserDoesNotExist)
    }
}

/// Issuing `token` to `username` until `expiry`: refused when another user
/// holds the token.
pub open spec fn issue_result(t: Tables, username: Seq<char>, token: Seq<char>) -> Result<
    Seq<char>,
    BoardError,
> {
    if t.token_free_for(username, token) {
        Ok(token)
    } else {
        Err(BoardError::Internal)
    }
}

/// The tables after an attempt to issue `token` to `username`: the new
/// session replaces the old one, or nothing changes.
pub open spec fn issue_tables(t: Tables, username: Seq<char>, token: Seq<char>, expiry: u64) -> Tables {
    if t.token_free_for(username, token) {
        t.with_session(username, SessionRow { token, expiry })
    } else {
        t
    }
}

/// The user behind `token`, or a rejection when nobody holds it.
pub open spec fn identity_result(t: Tables, token: Seq<char>) -> Result<Seq<char>, BoardError> {
    match t.holder(token) {
        Some(username) => Ok(username),
        None => Err(BoardError::Unauthenticated),
    }
}

/// Logging `username` out: refused when the user has no session.
pub open spec fn logout_result(t: Tables, username: Seq<char>) -> Result<(), BoardError> {
    if t.sessions.contains_key(username) {
        Ok(())
    } else {
        Err(BoardError::Unauthenticated)
    }
}

/// Appending a message: it receives the next number, unless the numbers are
/// used up.
pub open spec fn send_result(t: Tables) -> Result<u64, BoardError> {
    if t.next_post_num < u64::MAX {
        Ok(t.next_post_num as u64)
    } else {
        Err(BoardError::Internal)
    }
}

/// The tables after an attempt to append a message.
pub open spec fn send_tables(t: Tables, user: Seq<char>, message: Seq<char>, time: Seq<char>) -> Tables {
    if t.next_post_num < u64::MAX {
        t.with_post(user, message, time)
    } else {
        t
    }
}

/// The board's error for a failed write of a new user.
fn register_error(e: StoreError) -> (b: BoardError)
    ensures
        b == (match e {
            StoreError::Conflict => BoardError::UsernameTaken,
            StoreError::Failure => BoardError::Internal,
        }),
{
    match e {
        StoreError::Conflict => BoardError::UsernameTaken,
        StoreError::Failure => BoardError::Internal,
    }
}

/// Stores the record of a new user. The name must be free.
pub fn register_user<S: Store>(username: &str, password_hash: &str, db: &mut S) -> (r: Result<
    (),
    BoardError,
>)
    requires
        old(db).inv(),
    ensures
        final(db).inv(),
        final(db).tables() is Some ==> final(db).tables().unwrap().wf(),
        r is Err ==> r == Err::<(), BoardError>(BoardError::UsernameTaken) || r == Err::<
            (),
            BoardError,
        >(BoardError::Internal),
        old(db).tables() is None ==> final(db).tables() is None,
        old(db).tables() is Some ==> ({
            let t = old(db).tables().unwrap();
            &&& r == register_result(t, username@)
            &&& final(db).tables() == Some(register_tables(t, username@, password_hash@))
        }),
{
    proof {
        db.lemma_tables_wf();
    }
    match db.insert_user(username, password_hash) {
        Ok(()) => Ok(()),
        Err(e) => Err(register_error(e)),
    }
}

/// What a password check amounts to once the record was looked up: no
/// record means no such user, otherwise the hasher decides.
pub fn password_verdict(record: &Option<String>, password: &str) -> (r: Result<bool, BoardError>)
    ensures
        r == (match *record {
            Some(stored) => Ok::<bool, BoardError>(accepts(password@, stored@)),
            None => Err::<bool, BoardError>(BoardError::UserDoesNotExist),
        }),
{
    match record {
        Some(stored) => Ok(verify_hash(password, stored.as_str())),
        None => Err(BoardError::UserDoesNotExist),
    }
}

/// Checks `password` against the record stored for `username`.
pub fn validate_password<S: Store>(username: &str, password: &str, db: &S) -> (r: Result<
    bool,
    BoardError,
>)
    requires
        db.inv(),
    ensures
        db.tables() is Some ==> db.tables().unwrap().wf(),
        r is Err ==> r == Err::<bool, BoardError>(BoardError::UserDoesNotExist) || r == Err::<
            bool,
            BoardError,
        >(BoardError::Internal),
        db.tables() is Some ==> r == password_result(db.tables().unwrap(), username@, password@),
{
    proof {
        db.lemma_tables_wf();
    }
    match db.find_record(username) {
        Ok(record) => password_verdict(&record, password),
        Err(_) => Err(BoardError::Internal),
    }
}

/// Stores `token` as the one session of `username`, valid until `expiry`.
/// Any earlier session of the user is gone in the same step.
pub fn issue_session<S: Store>(username: &str, token: String, expiry: u64, db: &mut S) -> (r:
    Result<String, BoardError>)
    requires
        old(db).inv(),
    ensures
        final(db).inv(),
        final(db).tables() is Some ==> final(db).tables().unwrap().wf(),
        r is Ok ==> r.unwrap() == token,
        r is Err ==> r == Err::<String, BoardError>(BoardError::Internal),
        old(db).tables() is None ==> final(db).tables() is None,
        old(db).tables() is Some ==> ({
            let t = old(db).tables().unwrap();
            &&& text_in(r) == issue_result(t, username@, token@)
            &&& final(db).tables() == Some(issue_tables(t, username@, token@, expiry))
        }),
{
    proof {
        db.lemma_tables_wf();
    }
    match db.put_session(username, token.as_str(), expiry) {
        Ok(()) => Ok(token),
        Err(_) => Err(BoardError::Internal),
    }
}

/// Issues a fresh random token to `username`, valid for two days from now,
/// in place of any earlier session.
pub fn generate_session<S: Store>(username: &str, db: &mut S) -> (r: Result<String, BoardError>)
    requires
        old(db).inv(),
    ensures
        final(db).inv(),
        final(db).tables() is Some ==> final(db).tables().unwrap().wf(),
        r is Ok ==> r.unwrap()@.len() == TOKEN_LENGTH,
        r is Err ==> r == Err::<String, BoardError>(BoardError::Internal),
        old(db).tables() is None ==> final(db).tables() is None,
        old(db).tables() is Some ==> ({
            let t = old(db).tables().unwrap();
            &&& r is Err ==> final(db).tables() == Some(t)
            &&& r is Ok ==> t.token_free_for(username@, r.unwrap()@) && exists|expiry: u64|
                expiry >= SESSION_SECONDS && final(db).tables() == Some(
                    #[trigger] t.with_session(
                        username@,
                        SessionRow { token: r.unwrap()@, expiry },
                    ),
                )
        }),
{
    proof {
        db.lemma_tables_wf();
    }
    let token = fresh_token();
    match get_two_days() {
        Some(expiry) => issue_session(username, token, expiry, db),
        None => Err(BoardError::Internal),
    }
}

/// Whether a presented token proves the looked-up session at `now`: there is
/// a session, its token is exactly the presented one, and it has not lapsed.
pub fn session_grants(found: &Option<Session>, presented: &str, now: u64) -> (granted: bool)
    ensures
        granted == (match *found {
            Some(session) => session.token@ == presented@ && now < session.expiry,
            None => false,
        }),
{
    match found {
        Some(session) => same_text(session.token.as_str(), presented) && now < session.expiry,
        None => false,
    }
}

/// Whether `session`, presented at `now`, proves a live session of
/// `username`. A user without a session and a wrong or lapsed token give the
/// same `false`.
pub fn validate_session_at<S: Store>(username: &str, session: &str, now: u64, db: &S) -> (r:
    Result<bool, BoardError>)
    requires
        db.inv(),
    ensures
        db.tables() is Some ==> db.tables().unwrap().wf(),
        r is Err ==> r == Err::<bool, BoardError>(BoardError::Internal),
        db.tables() is Some ==> r == Ok::<bool, BoardError>(
            db.tables().unwrap().grants(username@, session@, now),
        ),
{
    proof {
        db.lemma_tables_wf();
    }
    match db.find_session(username) {
        Ok(found) => Ok(session_grants(&found, session, now)),
        Err(_) => Err(BoardError::Internal),
    }
}

/// Whether `session` proves a live session of `username` right now.
pub fn validate_session<S: Store>(username: &str, session: &str, db: &S) -> (r: Result<
    bool,
    BoardError,
>)
    requires
        db.inv(),
    ensures
        db.tables() is Some ==> db.tables().unwrap().wf(),
        r is Err ==> r == Err::<bool, BoardError>(BoardError::Internal),
        db.tables() is Some && r is Ok ==> exists|now: u64|
            r.unwrap() == #[trigger] db.tables().unwrap().grants(username@, session@, now),
{
    proof {
        db.lemma_tables_wf();
    }
    match get_time() {
        Some(now) => validate_session_at(username, session, now, db),
        None => Err(BoardError::Internal),
    }
}

/// The user who holds `session`, whether or not the session is still live.
pub fn get_username_from_session<S: Store>(session: &str, db: &S) -> (r: Result<
    String,
    BoardError,
>)
    requires
        db.inv(),
    ensures
        db.tables() is Some ==> db.tables().unwrap().wf(),
        r is Err ==> r == Err::<String, BoardError>(BoardError::Unauthenticated) || r == Err::<
            String,
            BoardError,
        >(BoardError::Internal),
        db.tables() is Some ==> text_in(r) == identity_result(db.tables().unwrap(), session@),
{
    proof {
        db.lemma_tables_wf();
    }
    match db.find_holder(session) {
        Ok(Some(username)) => Ok(username),
        Ok(None) => Err(BoardError::Unauthenticated),
        Err(_) => Err(BoardError::Internal),
    }
}

/// The whole log, oldest message first.
pub fn get_posts<S: Store>(db: &S) -> (r: Result<Vec<Post>, BoardError>)
    requires
        db.inv(),
    ensures
        db.tables() is Some ==> db.tables().unwrap().wf(),
        r is Err ==> r == Err::<Vec<Post>, BoardError>(BoardError::Internal),
        db.tables() is Some ==> rows_in(r) == Ok::<Seq<crate::types::PostRow>, BoardError>(
            db.tables().unwrap().posts,
        ),
{
    proof {
        db.lemma_tables_wf();
    }
    match db.all_posts() {
        Ok(posts) => Ok(posts),
        Err(_) => Err(BoardError::Internal),
    }
}

/// Appends a message to the log and returns the number it received.
pub fn send_message<S: Store>(message: &InsertPost, db: &mut S) -> (r: Result<u64, BoardError>)
    requires
        old(db).inv(),
    ensures
        final(db).inv(),
        final(db).tables() is Some ==> final(db).tables().unwrap().wf(),
        r is Ok ==> r.unwrap() >= 1,
        r is Err ==> r == Err::<u64, BoardError>(BoardError::Internal),
        old(db).tables() is None ==> final(db).tables() is None,
        old(db).tables() is Some ==> ({
            let t = old(db).tables().unwrap();
            &&& r == send_result(t)
            &&& final(db).tables() == Some(
                send_tables(t, message.user@, message.message@, message.time@),
            )
        }),
{
    proof {
        db.lemma_tables_wf();
    }
    match db.append_post(message) {
        Ok(number) => Ok(number),
        Err(_) => Err(BoardError::Internal),
    }
}

/// What a logout amounts to once the row was deleted: a user without a
/// session was not logged in.
pub fn logout_verdict(deleted: bool) -> (r: Result<(), BoardError>)
    ensures
        r == (if deleted {
            Ok::<(), BoardError>(())
        } else {
            Err::<(), BoardError>(BoardError::Unauthenticated)
        }),
{
    if deleted {
        Ok(())
    } else {
        Err(BoardError::Unauthenticated)
    }
}

/// Deletes the session of `username`.
pub fn logout<S: Store>(username: &str, db: &mut S) -> (r: Result<(), BoardError>)
    requires
        old(db).inv(),
    ensures
        final(db).inv(),
        final(db).tables() is Some ==> final(db).tables().unwrap().wf(),
        r is Err ==> r == Err::<(), BoardError>(BoardError::Unauthenticated) || r == Err::<
            (),
            BoardError,
        >(BoardError::Internal),
        old(db).tables() is None ==> final(db).tables() is None,
        old(db).tables() is Some ==> ({
            let t = old(db).tables().unwrap();
            &&& r == logout_result(t, username@)
            &&& final(db).tables() == Some(t.without_session(username@))
        }),
{
    proof {
        db.lemma_tables_wf();
    }
    match db.delete_session(username) {
        Ok(deleted) => logout_verdict(deleted),
        Err(_) => Err(BoardError::Internal),
    }
}

} // verus!
