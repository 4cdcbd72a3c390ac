//! The operations that the board offers at its boundary: registering,
//! logging in, and the three protected actions that start from a presented
//! token.
//!
//! Each operation that reads the clock or draws a token has a companion
//! whose name ends in `_at`: the companion takes those values as arguments
//! and is specified exactly.

use vstd::prelude::*;
use crate::authority::{
    BoardError, get_posts, get_username_from_session, issue_session, register_result,
    register_tables, register_user, rows_in, send_message, send_result, send_tables, text_in,
    validate_password, validate_session_at,
};
use crate::clock::{get_formatted_time, get_time, session_expiry, SESSION_SECONDS};
use crate::hasher::{accepts, hash, HashError};
use crate::store::{Store, Tables};
use crate::text::owned;
use crate::token::{fresh_token, TOKEN_LENGTH};
use crate::types::{InsertPost, Post, PostRow, SessionRow};

verus! {

/// The one answer to a credential that does not prove a live session,
/// whatever the reason.
#[derive(Debug, Clone, Copy, PartialEq, Eq, Structural)]
pub struct Rejected;

/// Whether a field was sent and is not empty.
pub open spec fn present(field: Option<&str>) -> bool {
    field is Some && field.unwrap()@.len() > 0
}

/// The text of a field that may be missing.
pub open spec fn field_text(field: Option<&str>) -> Option<Seq<char>> {
    match field {
        Some(s) => Some(s@),
        None => None,
    }
}

/// The name inside the answer of an authorization.
pub open spec fn name_in(r: Result<String, Rejected>) -> Result<Seq<char>, Rejected> {
    match r {
        Ok(s) => Ok(s@),
        Err(e) => Err(e),
    }
}

/// Checks that a username and a password were both sent and that neither is
/// empty.
pub fn credentials<'a>(username: Option<&'a str>, password: Option<&'a str>) -> (r: Result<
    (&'a str, &'a str),
    BoardError,
>)
    ensures
        r == (if present(username) && present(password) {
            Ok::<(&str, &str), BoardError>((username.unwrap(), password.unwrap()))
        } else {
            Err::<(&str, &str), BoardError>(BoardError::MalformedInput)
        }),
{
    match (username, password) {
        (Some(u), Some(p)) => {
            if u.is_empty() || p.is_empty() {
                Err(BoardError::MalformedInput)
            } else {
                Ok((u, p))
            }
        },
        _ => Err(BoardError::MalformedInput),
    }
}

/// Registering with the outcome of hashing the password: a failed hash is an
/// internal failure, a record is stored unless the name is taken.
pub open spec fn register_hashed_result(
    t: Tables,
    username: Seq<char>,
    hashed: Result<String, HashError>,
) -> Result<(), BoardError> {
    match hashed {
        Ok(record) => register_result(t, username),
        Err(_) => Err(BoardError::Internal),
    }
}

/// The tables after registering with the outcome of hashing the password.
pub open spec fn register_hashed_tables(
    t: Tables,
    username: Seq<char>,
    hashed: Result<String, HashError>,
) -> Tables {
    match hashed {
        Ok(record) => register_tables(t, username, record@),
        Err(_) => t,
    }
}

/// Registers `username` with the record that hashing its password gave.
pub fn register_hashed<S: Store>(username: &str, hashed: Result<String, HashError>, db: &mut S) -> (r:
    Result<(), BoardError>)
    requires
        old(db).inv(),
    ensures
        final(db).inv(),
        final(db).tables() is Some ==> final(db).tables().unwrap().wf(),
        r is Err ==> r == Err::<(), BoardError>(BoardError::UsernameTaken) || r == Err::<
            (),
            BoardError,
        >(BoardError::Internal),
        hashed is Err ==> r == Err::<(), BoardError>(BoardError::Internal),
        old(db).tables() is None ==> final(db).tables() is None,
        old(db).tables() is Some ==> ({
            let t = old(db).tables().unwrap();
            &&& r == register_hashed_result(t, username@, hashed)
            &&& final(db).tables() == Some(register_hashed_tables(t, username@, hashed))
        }),
{
    proof {
        db.lemma_tables_wf();
    }
    match hashed {
        Ok(record) => register_user(username, record.as_str(), db),
        Err(_) => Err(BoardError::Internal),
    }
}

/// Registers a new user: both fields must be present, the password is
/// hashed under a fresh salt, and the name must be free.
pub fn register<S: Store>(username: Option<&str>, password: Option<&str>, db: &mut S) -> (r: Result<
    (),
    BoardError,
>)
    requires
        old(db).inv(),
    ensures
        final(db).inv(),
        final(db).tables() is Some ==> final(db).tables().unwrap().wf(),
        r == Err::<(), BoardError>(BoardError::MalformedInput) <==> !(present(username) && present(
            password,
        )),
        r is Err ==> r == Err::<(), BoardError>(BoardError::MalformedInput) || r == Err::<
            (),
            BoardError,
        >(BoardError::UsernameTaken) || r == Err::<(), BoardError>(BoardError::Internal),
        old(db).tables() is None ==> final(db).tables() is None,
        old(db).tables() is Some ==> ({
            let t = old(db).tables().unwrap();
            &&& r is Err ==> final(db).tables() == Some(t)
            &&& r == Err::<(), BoardError>(BoardError::UsernameTaken) ==> t.users.contains_key(
                username.unwrap()@,
            )
            &&& r is Ok ==> !t.users.contains_key(username.unwrap()@) && exists|record: Seq<char>|
                accepts(password.unwrap()@, record) && final(db).tables() == Some(
                    #[trigger] t.with_user(username.unwrap()@, record),
                )
        }),
{
    proof {
        db.lemma_tables_wf();
    }
    match credentials(username, password) {
        Ok((u, p)) => register_hashed(u, hash(p), db),
        Err(e) => Err(e),
    }
}

/// Logging in at `now` with `fresh` as the token to issue: the user must
/// exist, the password must match, a still valid presented token stops the
/// login, and only then is the fresh token issued. It is issued only if
/// nobody holds it yet, the user included, and if the expiry fits in 64
/// bits; otherwise the login is an internal failure.
pub open spec fn login_result(
    t: Tables,
    username: Seq<char>,
    password: Seq<char>,
    presented: Option<Seq<char>>,
    now: u64,
    fresh: Seq<char>,
) -> Result<Seq<char>, BoardError> {
    if !t.users.contains_key(username) {
        Err(BoardError::UserDoesNotExist)
    } else if !accepts(password, t.users[username]) {
        Err(BoardError::WrongCredentials)
    } else if presented is Some && t.grants(username, presented.unwrap(), now) {
        Err(BoardError::AlreadyLoggedIn)
    } else if t.holder(fresh) is Some || now + SESSION_SECONDS > u64::MAX {
        Err(BoardError::Internal)
    } else {
        Ok(fresh)
    }
}

/// The tables after a login attempt: a successful login replaces the user's
/// session by one that lapses forty-eight hours after `now`; any other
/// outcome changes nothing.
pub open spec fn login_tables(
    t: Tables,
    username: Seq<char>,
    password: Seq<char>,
    presented: Option<Seq<char>>,
    now: u64,
    fresh: Seq<char>,
) -> Tables {
    if login_result(t, username, password, presented, now, fresh) is Ok {
        t.with_session(
            username,
            SessionRow { token: fresh, expiry: (now + SESSION_SECONDS) as u64 },
        )
    } else {
        t
    }
}

/// Logs `username` in at `now`, issuing `fresh` on success.
pub fn login_at<S: Store>(
    username: &str,
    password: &str,
    presented: Option<&str>,
    now: u64,
    fresh: String,
    db: &mut S,
) -> (r: Result<String, BoardError>)
    requires
        old(db).inv(),
    ensures
        final(db).inv(),
        final(db).tables() is Some ==> final(db).tables().unwrap().wf(),
        r is Ok ==> r.unwrap() == fresh && now + SESSION_SECONDS <= u64::MAX,
        r is Err ==> r == Err::<String, BoardError>(BoardError::UserDoesNotExist) || r == Err::<
            String,
            BoardError,
        >(BoardError::WrongCredentials) || r == Err::<String, BoardError>(
            BoardError::AlreadyLoggedIn,
        ) || r == Err::<String, BoardError>(BoardError::Internal),
        r == Err::<String, BoardError>(BoardError::AlreadyLoggedIn) ==> presented is Some,
        old(db).tables() is None ==> final(db).tables() is None,
        old(db).tables() is Some ==> ({
            let t = old(db).tables().unwrap();
            &&& text_in(r) == login_result(
                t,
                username@,
                password@,
                field_text(presented),
                now,
                fresh@,
            )
            &&& final(db).tables() == Some(
                login_tables(t, username@, password@, field_text(presented), now, fresh@),
            )
        }),
{
    proof {
        db.lemma_tables_wf();
    }
    match validate_password(username, password, db) {
        Ok(true) => {},
        Ok(false) => {
            return Err(BoardError::WrongCredentials);
        },
        Err(e) => {
            return Err(e);
        },
    }
    if let Some(token) = presented {
        match validate_session_at(username, token, now, db) {
            Ok(true) => {
                return Err(BoardError::AlreadyLoggedIn);
            },
            Ok(false) => {},
            Err(e) => {
                return Err(e);
            },
        }
    }
    match db.find_holder(fresh.as_str()) {
        Ok(None) => {},
        _ => {
            return Err(BoardError::Internal);
        },
    }
    proof {
        if db.tables() is Some {
            let t = db.tables().unwrap();
            assert(t.token_free_for(username@, fresh@)) by {
                assert forall|other: Seq<char>| #[trigger] t.holds(other, fresh@) implies other
                    == username@ by {}
            }
        }
    }
    match session_expiry(now) {
        Some(expiry) => issue_session(username, fresh, expiry, db),
        None => Err(BoardError::Internal),
    }
}

/// Logs a user in: both fields must be present, then as `login_at` with the
/// present time and a fresh random token.
pub fn login<S: Store>(
    username: Option<&str>,
    password: Option<&str>,
    presented: Option<&str>,
    db: &mut S,
) -> (r: Result<String, BoardError>)
    requires
        old(db).inv(),
    ensures
        final(db).inv(),
        final(db).tables() is Some ==> final(db).tables().unwrap().wf(),
        r == Err::<String, BoardError>(BoardError::MalformedInput) <==> !(present(username)
            && present(password)),
        r is Ok ==> r.unwrap()@.len() == TOKEN_LENGTH,
        r != Err::<String, BoardError>(BoardError::UsernameTaken),
        r != Err::<String, BoardError>(BoardError::Unauthenticated),
        r == Err::<String, BoardError>(BoardError::AlreadyLoggedIn) ==> presented is Some,
        old(db).tables() is None ==> final(db).tables() is None,
        old(db).tables() is Some && r is Err ==> final(db).tables() == old(db).tables(),
        old(db).tables() is Some ==> ({
            let t = old(db).tables().unwrap();
            ||| r is Err && final(db).tables() == Some(t) && (r == Err::<String, BoardError>(
                BoardError::MalformedInput,
            ) || r == Err::<String, BoardError>(BoardError::Internal))
            ||| exists|now: u64, fresh: Seq<char>|
                #![trigger login_result(t, username.unwrap()@, password.unwrap()@, field_text(presented), now, fresh)]
                {
                    &&& present(username) && present(password)
                    &&& text_in(r) == login_result(
                        t,
                        username.unwrap()@,
                        password.unwrap()@,
                        field_text(presented),
                        now,
                        fresh,
                    )
                    &&& final(db).tables() == Some(
                        login_tables(
                            t,
                            username.unwrap()@,
                            password.unwrap()@,
                            field_text(presented),
                            now,
                            fresh,
                        ),
                    )
                }
        }),
{
    proof {
        db.lemma_tables_wf();
    }
    let (u, p) = match credentials(username, password) {
        Ok(pair) => pair,
        Err(e) => {
            return Err(e);
        },
    };
    let now = match get_time() {
        Some(now) => now,
        None => {
            return Err(BoardError::Internal);
        },
    };
    let fresh = fresh_token();
    let ghost token = fresh@;
    let r = login_at(u, p, presented, now, fresh, db);
    proof {
        if old(db).tables() is Some {
            let t = old(db).tables().unwrap();
            assert(text_in(r) == login_result(t, u@, p@, field_text(presented), now, token));
        }
    }
    r
}

/// Authorizing a presented token at `now`: the token must be there, someone
/// must hold it, and it must still prove a live session of that user.
pub open spec fn authorize_result(t: Tables, token: Option<Seq<char>>, now: u64) -> Result<
    Seq<char>,
    Rejected,
> {
    match token {
        Some(presented) => match t.holder(presented) {
            Some(username) => if t.grants(username, presented, now) {
                Ok(username)
            } else {
                Err(Rejected)
            },
            None => Err(Rejected),
        },
        None => Err(Rejected),
    }
}

/// Turns a presented token into the identity behind it, as of `now`. A
/// missing, unknown, superseded or lapsed token and a failure of storage all
/// give the same rejection.
pub fn authorize_at<S: Store>(token: Option<&str>, now: u64, db: &S) -> (r: Result<
    String,
    Rejected,
>)
    requires
        db.inv(),
    ensures
        db.tables() is Some ==> db.tables().unwrap().wf(),
        token is None ==> r is Err,
        db.tables() is Some ==> name_in(r) == authorize_result(
            db.tables().unwrap(),
            field_text(token),
            now,
        ),
{
    proof {
        db.lemma_tables_wf();
    }
    let presented = match token {
        Some(presented) => presented,
        None => {
            return Err(Rejected);
        },
    };
    let username = match get_username_from_session(presented, db) {
        Ok(username) => username,
        Err(_) => {
            return Err(Rejected);
        },
    };
    match validate_session_at(username.as_str(), presented, now, db) {
        Ok(true) => Ok(username),
        _ => Err(Rejected),
    }
}

/// Turns a presented token into the identity behind it, as of now.
pub fn authorize<S: Store>(token: Option<&str>, db: &S) -> (r: Result<String, Rejected>)
    requires
        db.inv(),
    ensures
        db.tables() is Some ==> db.tables().unwrap().wf(),
        token is None ==> r is Err,
        db.tables() is Some && r is Ok ==> exists|now: u64|
            name_in(r) == #[trigger] authorize_result(
                db.tables().unwrap(),
                field_text(token),
                now,
            ),
{
    proof {
        db.lemma_tables_wf();
    }
    match get_time() {
        Some(now) => authorize_at(token, now, db),
        None => Err(Rejected),
    }
}

/// Reading the log with a presented token at `now`.
pub open spec fn posts_result(t: Tables, token: Option<Seq<char>>, now: u64) -> Result<
    Seq<PostRow>,
    BoardError,
> {
    if authorize_result(t, token, now) is Ok {
        Ok(t.posts)
    } else {
        Err(BoardError::Unauthenticated)
    }
}

/// Hands the whole log, oldest message first, to the holder of a token that
/// is live at `now`.
pub fn posts_at<S: Store>(token: Option<&str>, now: u64, db: &S) -> (r: Result<
    Vec<Post>,
    BoardError,
>)
    requires
        db.inv(),
    ensures
        db.tables() is Some ==> db.tables().unwrap().wf(),
        token is None ==> r == Err::<Vec<Post>, BoardError>(BoardError::Unauthenticated),
        r is Err ==> r == Err::<Vec<Post>, BoardError>(BoardError::Unauthenticated) || r == Err::<
            Vec<Post>,
            BoardError,
        >(BoardError::Internal),
        db.tables() is Some ==> rows_in(r) == posts_result(
            db.tables().unwrap(),
            field_text(token),
            now,
        ),
{
    proof {
        db.lemma_tables_wf();
    }
    match authorize_at(token, now, db) {
        Ok(_) => get_posts(db),
        Err(_) => Err(BoardError::Unauthenticated),
    }
}

/// Hands the whole log to the holder of a token that is live now. A missing
/// token is turned down before the clock is read.
pub fn posts<S: Store>(token: Option<&str>, db: &S) -> (r: Result<Vec<Post>, BoardError>)
    requires
        db.inv(),
    ensures
        db.tables() is Some ==> db.tables().unwrap().wf(),
        token is None ==> r == Err::<Vec<Post>, BoardError>(BoardError::Unauthenticated),
        r is Err ==> r == Err::<Vec<Post>, BoardError>(BoardError::Unauthenticated) || r == Err::<
            Vec<Post>,
            BoardError,
        >(BoardError::Internal),
        db.tables() is Some && r is Ok ==> rows_in(r) == Ok::<Seq<PostRow>, BoardError>(
            db.tables().unwrap().posts,
        ) && exists|now: u64| #[trigger]
            authorize_result(db.tables().unwrap(), field_text(token), now) is Ok,
{
    proof {
        db.lemma_tables_wf();
    }
    if token.is_none() {
        return Err(BoardError::Unauthenticated);
    }
    match get_time() {
        Some(now) => posts_at(token, now, db),
        None => Err(BoardError::Internal),
    }
}

/// Posting with a presented token at `now`: the holder of a live token gets
/// the number of the new message.
pub open spec fn newpost_result(t: Tables, token: Option<Seq<char>>, now: u64) -> Result<
    u64,
    BoardError,
> {
    if authorize_result(t, token, now) is Ok {
        send_result(t)
    } else {
        Err(BoardError::Unauthenticated)
    }
}

/// The tables after posting with a presented token: the message is appended
/// under the name of the token's holder, stamped with `time`.
pub open spec fn newpost_tables(
    t: Tables,
    token: Option<Seq<char>>,
    body: Seq<char>,
    now: u64,
    time: Seq<char>,
) -> Tables {
    match authorize_result(t, token, now) {
        Ok(username) => send_tables(t, username, body, time),
        Err(_) => t,
    }
}

/// Appends `body` to the log for the holder of a token that is live at
/// `now`, stamped with `time`.
pub fn newpost_at<S: Store>(token: Option<&str>, body: &str, now: u64, time: String, db: &mut S) -> (r:
    Result<u64, BoardError>)
    requires
        old(db).inv(),
    ensures
        final(db).inv(),
        final(db).tables() is Some ==> final(db).tables().unwrap().wf(),
        token is None ==> r == Err::<u64, BoardError>(BoardError::Unauthenticated),
        r is Ok ==> r.unwrap() >= 1,
        r is Err ==> r == Err::<u64, BoardError>(BoardError::Unauthenticated) || r == Err::<
            u64,
            BoardError,
        >(BoardError::Internal),
        old(db).tables() is None ==> final(db).tables() is None,
        old(db).tables() is Some ==> ({
            let t = old(db).tables().unwrap();
            &&& r == newpost_result(t, field_text(token), now)
            &&& final(db).tables() == Some(
                newpost_tables(t, field_text(token), body@, now, time@),
            )
        }),
{
    proof {
        db.lemma_tables_wf();
    }
    match authorize_at(token, now, db) {
        Ok(username) => {
            let post = InsertPost { user: username, message: owned(body), time };
            send_message(&post, db)
        },
        Err(_) => Err(BoardError::Unauthenticated),
    }
}

/// Appends `body` to the log for the holder of a token that is live now,
/// stamped with the present minute. A missing token is turned down before
/// the clock is read.
pub fn newpost<S: Store>(token: Option<&str>, body: &str, db: &mut S) -> (r: Result<
    u64,
    BoardError,
>)
    requires
        old(db).inv(),
    ensures
        final(db).inv(),
        final(db).tables() is Some ==> final(db).tables().unwrap().wf(),
        token is None ==> r == Err::<u64, BoardError>(BoardError::Unauthenticated),
        r is Ok ==> r.unwrap() >= 1,
        r is Err ==> r == Err::<u64, BoardError>(BoardError::Unauthenticated) || r == Err::<
            u64,
            BoardError,
        >(BoardError::Internal),
        old(db).tables() is None ==> final(db).tables() is None,
        old(db).tables() is Some ==> ({
            let t = old(db).tables().unwrap();
            ||| r == Err::<u64, BoardError>(BoardError::Internal) && final(db).tables() == Some(t)
            ||| exists|now: u64, time: Seq<char>|
                #![trigger newpost_tables(t, field_text(token), body@, now, time)]
                {
                    &&& r == newpost_result(t, field_text(token), now)
                    &&& final(db).tables() == Some(
                        newpost_tables(t, field_text(token), body@, now, time),
                    )
                }
        }),
{
    proof {
        db.lemma_tables_wf();
    }
    if token.is_none() {
        proof {
            if old(db).tables() is Some {
                let t = old(db).tables().unwrap();
                assert(newpost_tables(t, field_text(token), body@, 0, Seq::empty()) == t);
            }
        }
        return Err(BoardError::Unauthenticated);
    }
    let now = match get_time() {
        Some(now) => now,
        None => {
            return Err(BoardError::Internal);
        },
    };
    let time = get_formatted_time();
    let ghost stamp = time@;
    let r = newpost_at(token, body, now, time, db);
    proof {
        if old(db).tables() is Some {
            let t = old(db).tables().unwrap();
            assert(final(db).tables() == Some(
                newpost_tables(t, field_text(token), body@, now, stamp),
            ));
        }
    }
    r
}

/// Logging out with a presented token at `now`.
pub open spec fn logout_token_result(t: Tables, token: Option<Seq<char>>, now: u64) -> Result<
    (),
    BoardError,
> {
    if authorize_result(t, token, now) is Ok {
        Ok(())
    } else {
        Err(BoardError::Unauthenticated)
    }
}

/// The tables after logging out with a presented token: the session of the
/// token's holder is gone.
pub open spec fn logout_token_tables(t: Tables, token: Option<Seq<char>>, now: u64) -> Tables {
    match authorize_result(t, token, now) {
        Ok(username) => t.without_session(username),
        Err(_) => t,
    }
}

/// Ends the session of the holder of a token that is live at `now`.
pub fn logout_at<S: Store>(token: Option<&str>, now: u64, db: &mut S) -> (r: Result<
    (),
    BoardError,
>)
    requires
        old(db).inv(),
    ensures
        final(db).inv(),
        final(db).tables() is Some ==> final(db).tables().unwrap().wf(),
        token is None ==> r == Err::<(), BoardError>(BoardError::Unauthenticated),
        r is Err ==> r == Err::<(), BoardError>(BoardError::Unauthenticated) || r == Err::<
            (),
            BoardError,
        >(BoardError::Internal),
        old(db).tables() is None ==> final(db).tables() is None,
        old(db).tables() is Some ==> ({
            let t = old(db).tables().unwrap();
            &&& r == logout_token_result(t, field_text(token), now)
            &&& final(db).tables() == Some(logout_token_tables(t, field_text(token), now))
        }),
{
    proof {
        db.lemma_tables_wf();
    }
    match authorize_at(token, now, db) {
        Ok(username) => crate::authority::logout(username.as_str(), db),
        Err(_) => Err(BoardError::Unauthenticated),
    }
}

/// Ends the session of the holder of a token that is live now. A missing
/// token is turned down before the clock is read.
pub fn logout<S: Store>(token: Option<&str>, db: &mut S) -> (r: Result<(), BoardError>)
    requires
        old(db).inv(),
    ensures
        final(db).inv(),
        final(db).tables() is Some ==> final(db).tables().unwrap().wf(),
        token is None ==> r == Err::<(), BoardError>(BoardError::Unauthenticated),
        r is Err ==> r == Err::<(), BoardError>(BoardError::Unauthenticated) || r == Err::<
            (),
            BoardError,
        >(BoardError::Internal),
        old(db).tables() is None ==> final(db).tables() is None,
        old(db).tables() is Some ==> ({
            let t = old(db).tables().unwrap();
            ||| r == Err::<(), BoardError>(BoardError::Internal) && final(db).tables() == Some(t)
            ||| exists|now: u64|
                #![trigger logout_token_tables(t, field_text(token), now)]
                {
                    &&& r == logout_token_result(t, field_text(token), now)
                    &&& final(db).tables() == Some(logout_token_tables(t, field_text(token), now))
                }
        }),
{
    proof {
        db.lemma_tables_wf();
    }
    if token.is_none() {
        proof {
            if old(db).tables() is Some {
                let t = old(db).tables().unwrap();
                assert(logout_token_tables(t, field_text(token), 0) == t);
            }
        }
        return Err(BoardError::Unauthenticated);
    }
    match get_time() {
        Some(now) => logout_at(token, now, db),
        None => Err(BoardError::Internal),
    }
}

} // verus!
