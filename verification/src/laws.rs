//! What holds of the board across several operations, proved over the
//! tables and the outcomes that the operations are specified by.

use vstd::prelude::*;
use crate::authority::{
    BoardError, logout_result, register_result, register_tables, send_result, send_tables,
};
use crate::clock::SESSION_SECONDS;
use crate::hasher::accepts;
use crate::requests::{
    Rejected, authorize_result, login_result, login_tables, logout_token_result,
    logout_token_tables, newpost_tables, register_hashed_tables,
};
use crate::store::Tables;
use crate::types::{PostRow, SessionRow};

verus! {

/// Registering keeps the tables well-formed.
pub proof fn lemma_register_keeps_wf(t: Tables, username: Seq<char>, record: Seq<char>)
    requires
        t.wf(),
    ensures
        register_tables(t, username, record).wf(),
{
}

/// Replacing a user's session by a token that nobody else holds keeps the
/// tables well-formed: every token still has one holder.
pub proof fn lemma_session_keeps_wf(t: Tables, username: Seq<char>, row: SessionRow)
    requires
        t.wf(),
        t.token_free_for(username, row.token),
    ensures
        t.with_session(username, row).wf(),
{
    let t1 = t.with_session(username, row);
    assert forall|a: Seq<char>, b: Seq<char>|
        t1.sessions.contains_key(a) && t1.sessions.contains_key(b)
            && #[trigger] t1.sessions[a].token == #[trigger] t1.sessions[b].token implies a
        == b by {
        if a == username && b != username {
            assert(t.holds(b, row.token));
        }
        if b == username && a != username {
            assert(t.holds(a, row.token));
        }
    }
}

/// Deleting a session keeps the tables well-formed.
pub proof fn lemma_delete_keeps_wf(t: Tables, username: Seq<char>)
    requires
        t.wf(),
    ensures
        t.without_session(username).wf(),
{
}

/// Appending a message keeps the tables well-formed: numbers stay strictly
/// increasing and none is used twice.
pub proof fn lemma_send_keeps_wf(t: Tables, user: Seq<char>, message: Seq<char>, time: Seq<char>)
    requires
        t.wf(),
    ensures
        send_tables(t, user, message, time).wf(),
{
}

/// Every operation at the boundary keeps the tables well-formed, whatever
/// its outcome: registering, logging in, posting and logging out.
pub proof fn law_requests_keep_wf(
    t: Tables,
    username: Seq<char>,
    password: Seq<char>,
    hashed: Result<String, crate::hasher::HashError>,
    token: Option<Seq<char>>,
    body: Seq<char>,
    time: Seq<char>,
    now: u64,
    fresh: Seq<char>,
)
    requires
        t.wf(),
    ensures
        register_hashed_tables(t, username, hashed).wf(),
        login_tables(t, username, password, token, now, fresh).wf(),
        newpost_tables(t, token, body, now, time).wf(),
        logout_token_tables(t, token, now).wf(),
{
    if login_result(t, username, password, token, now, fresh) is Ok {
        lemma_session_keeps_wf(
            t,
            username,
            SessionRow { token: fresh, expiry: (now + SESSION_SECONDS) as u64 },
        );
    }
    match authorize_result(t, token, now) {
        Ok(holder) => {
            lemma_send_keeps_wf(t, holder, body, time);
            lemma_delete_keeps_wf(t, holder);
        },
        Err(_) => {},
    }
}

/// In well-formed tables the holder of a token is the one user who holds it.
pub proof fn lemma_holder_is_unique(t: Tables, username: Seq<char>, token: Seq<char>)
    requires
        t.wf(),
        t.holds(username, token),
    ensures
        t.holder(token) == Some(username),
{
    let found = choose|u: Seq<char>| t.holds(u, token);
    assert(t.holds(found, token));
}

/// A token that nobody holds has no holder.
pub proof fn lemma_no_holder(t: Tables, token: Seq<char>)
    requires
        forall|u: Seq<char>| !t.holds(u, token),
    ensures
        t.holder(token) is None,
{
}

/// At any instant a user has at most one valid token, and a token proves the
/// session of at most one user.
pub proof fn law_one_live_session(
    t: Tables,
    a: Seq<char>,
    b: Seq<char>,
    first: Seq<char>,
    second: Seq<char>,
    now: u64,
)
    requires
        t.wf(),
    ensures
        t.grants(a, first, now) && t.grants(a, second, now) ==> first == second,
        t.grants(a, first, now) && t.grants(b, first, now) ==> a == b,
{
}

/// Registering the same username twice: on a free name the first call
/// succeeds, the second is refused as taken, and the record stored by the
/// first call is still there, untouched by the second.
pub proof fn law_second_registration_is_refused(
    t: Tables,
    username: Seq<char>,
    first: Seq<char>,
    second: Seq<char>,
)
    requires
        !t.users.contains_key(username),
    ensures
        register_result(t, username) is Ok,
        register_result(register_tables(t, username, first), username) == Err::<(), BoardError>(
            BoardError::UsernameTaken,
        ),
        register_tables(register_tables(t, username, first), username, second) == register_tables(
            t,
            username,
            first,
        ),
        register_tables(register_tables(t, username, first), username, second).users[username]
            == first,
{
}

/// A stored record is never overwritten: whatever is registered, the record
/// of a user who exists already stays what it was.
pub proof fn law_registration_never_overwrites(
    t: Tables,
    existing: Seq<char>,
    username: Seq<char>,
    record: Seq<char>,
)
    requires
        t.users.contains_key(existing),
    ensures
        register_tables(t, username, record).users.contains_key(existing),
        register_tables(t, username, record).users[existing] == t.users[existing],
{
}

/// A user who registered with a record that the password matches, as every
/// record made by hashing that password is, can log in with it: the login
/// fails neither as an unknown user nor as a wrong password, and succeeds
/// whenever nobody holds the fresh token and the expiry fits in 64 bits.
pub proof fn law_registered_password_logs_in(
    t: Tables,
    username: Seq<char>,
    password: Seq<char>,
    record: Seq<char>,
    now: u64,
    fresh: Seq<char>,
)
    requires
        !t.users.contains_key(username),
        accepts(password, record),
    ensures
        login_result(register_tables(t, username, record), username, password, None, now, fresh)
            == (if t.holder(fresh) is None && now + SESSION_SECONDS <= u64::MAX {
            Ok::<Seq<char>, BoardError>(fresh)
        } else {
            Err::<Seq<char>, BoardError>(BoardError::Internal)
        }),
{
    let t1 = register_tables(t, username, record);
    assert(forall|u: Seq<char>| t1.holds(u, fresh) == t.holds(u, fresh));
}

/// Logging in and then presenting the returned token, at any time before it
/// lapses, yields the username that logged in.
pub proof fn law_login_then_authorize(
    t: Tables,
    username: Seq<char>,
    password: Seq<char>,
    presented: Option<Seq<char>>,
    now: u64,
    fresh: Seq<char>,
    later: u64,
)
    requires
        t.wf(),
        login_result(t, username, password, presented, now, fresh) is Ok,
        later < now + SESSION_SECONDS,
    ensures
        authorize_result(
            login_tables(t, username, password, presented, now, fresh),
            Some(fresh),
            later,
        ) == Ok::<Seq<char>, Rejected>(username),
{
    let row = SessionRow { token: fresh, expiry: (now + SESSION_SECONDS) as u64 };
    let t1 = login_tables(t, username, password, presented, now, fresh);
    lemma_session_keeps_wf(t, username, row);
    assert(t1.holds(username, fresh));
    lemma_holder_is_unique(t1, username, fresh);
}

/// A second successful login for the same user invalidates the first token:
/// the second token is another one, because a token that somebody holds is
/// never issued, and from then on presenting the first token is rejected at
/// every instant.
pub proof fn law_second_login_supersedes(
    t: Tables,
    username: Seq<char>,
    password: Seq<char>,
    presented1: Option<Seq<char>>,
    now1: u64,
    first: Seq<char>,
    presented2: Option<Seq<char>>,
    now2: u64,
    second: Seq<char>,
    later: u64,
)
    requires
        t.wf(),
        login_result(t, username, password, presented1, now1, first) is Ok,
        login_result(
            login_tables(t, username, password, presented1, now1, first),
            username,
            password,
            presented2,
            now2,
            second,
        ) is Ok,
    ensures
        first != second,
        authorize_result(
            login_tables(
                login_tables(t, username, password, presented1, now1, first),
                username,
                password,
                presented2,
                now2,
                second,
            ),
            Some(first),
            later,
        ) == Err::<Seq<char>, Rejected>(Rejected),
{
    let row1 = SessionRow { token: first, expiry: (now1 + SESSION_SECONDS) as u64 };
    let t1 = login_tables(t, username, password, presented1, now1, first);
    lemma_session_keeps_wf(t, username, row1);
    let t2 = login_tables(t1, username, password, presented2, now2, second);
    assert(t1.holds(username, first));
    assert(first != second) by {
        if first == second {
            lemma_holder_is_unique(t1, username, first);
        }
    }
    assert forall|u: Seq<char>| !t2.holds(u, first) by {
        if t2.holds(u, first) {
            assert(u != username);
            assert(t1.holds(u, first));
        }
    }
    lemma_no_holder(t2, first);
}

/// Logging in with valid credentials while presenting a token that is still
/// valid for the same user reports `AlreadyLoggedIn` and changes nothing:
/// the stored token stays.
pub proof fn law_relogin_keeps_token(
    t: Tables,
    username: Seq<char>,
    password: Seq<char>,
    token: Seq<char>,
    now: u64,
    fresh: Seq<char>,
)
    requires
        t.users.contains_key(username),
        accepts(password, t.users[username]),
        t.grants(username, token, now),
    ensures
        login_result(t, username, password, Some(token), now, fresh) == Err::<
            Seq<char>,
            BoardError,
        >(BoardError::AlreadyLoggedIn),
        login_tables(t, username, password, Some(token), now, fresh) == t,
{
}

/// A token that nobody holds stays rejected through every later operation
/// that does not issue that very token: registering, posting, logging out,
/// and logging in with another fresh token, whatever their outcome.
pub proof fn law_rejected_token_stays_rejected(
    t: Tables,
    token: Seq<char>,
    username: Seq<char>,
    password: Seq<char>,
    hashed: Result<String, crate::hasher::HashError>,
    presented: Option<Seq<char>>,
    body: Seq<char>,
    time: Seq<char>,
    now: u64,
    fresh: Seq<char>,
    later: u64,
)
    requires
        t.holder(token) is None,
        fresh != token,
    ensures
        authorize_result(t, Some(token), later) is Err,
        authorize_result(register_hashed_tables(t, username, hashed), Some(token), later) is Err,
        authorize_result(
            login_tables(t, username, password, presented, now, fresh),
            Some(token),
            later,
        ) is Err,
        authorize_result(newpost_tables(t, presented, body, now, time), Some(token), later) is Err,
        authorize_result(logout_token_tables(t, presented, now), Some(token), later) is Err,
        authorize_result(t.without_session(username), Some(token), later) is Err,
{
    assert forall|u: Seq<char>| !t.holds(u, token) by {
        if t.holds(u, token) {
            assert(t.holder(token) is Some);
        }
    }
    lemma_unheld_carries_over(t, register_hashed_tables(t, username, hashed), token);
    lemma_unheld_carries_over(
        t,
        login_tables(t, username, password, presented, now, fresh),
        token,
    );
    lemma_unheld_carries_over(t, newpost_tables(t, presented, body, now, time), token);
    lemma_unheld_carries_over(t, logout_token_tables(t, presented, now), token);
    lemma_unheld_carries_over(t, t.without_session(username), token);
}

/// A token that nobody held before is held by nobody after, when every
/// session that is there after either was there before or carries another
/// token.
pub proof fn lemma_unheld_carries_over(before: Tables, after: Tables, token: Seq<char>)
    requires
        forall|u: Seq<char>| !before.holds(u, token),
        forall|u: Seq<char>| #[trigger]
            after.sessions.contains_key(u) ==> after.sessions[u].token != token || (
            before.sessions.contains_key(u) && before.sessions[u] == after.sessions[u]),
    ensures
        after.holder(token) is None,
{
    assert forall|u: Seq<char>| !after.holds(u, token) by {
        if after.holds(u, token) {
            assert(before.holds(u, token));
        }
    }
}

/// After a user logs out, the token of the ended session is rejected at
/// every instant, and a second logout of the same user fails as not logged
/// in.
pub proof fn law_logout_ends_session(t: Tables, username: Seq<char>, token: Seq<char>, later: u64)
    requires
        t.wf(),
        t.holds(username, token),
    ensures
        logout_result(t, username) is Ok,
        authorize_result(t.without_session(username), Some(token), later) == Err::<
            Seq<char>,
            Rejected,
        >(Rejected),
        logout_result(t.without_session(username), username) == Err::<(), BoardError>(
            BoardError::Unauthenticated,
        ),
{
    let t1 = t.without_session(username);
    assert forall|u: Seq<char>| !t1.holds(u, token) by {
        if t1.holds(u, token) {
            assert(t.holds(u, token));
        }
    }
    lemma_no_holder(t1, token);
}

/// The same, for a logout that starts from the token: once the holder of a
/// live token has logged out with it, the token is rejected at every
/// instant, and presenting it for another logout fails as not logged in.
pub proof fn law_logout_with_token_ends_session(t: Tables, token: Seq<char>, now: u64, later: u64)
    requires
        t.wf(),
        logout_token_result(t, Some(token), now) is Ok,
    ensures
        authorize_result(logout_token_tables(t, Some(token), now), Some(token), later) == Err::<
            Seq<char>,
            Rejected,
        >(Rejected),
        logout_token_result(logout_token_tables(t, Some(token), now), Some(token), later) == Err::<
            (),
            BoardError,
        >(BoardError::Unauthenticated),
{
    let username = authorize_result(t, Some(token), now).unwrap();
    assert(t.holds(username, token));
    law_logout_ends_session(t, username, token, later);
}

/// Messages appear in the log in the exact order in which they were posted,
/// each under its author, with strictly increasing numbers: three messages
/// sent one after the other are the last three rows of the log, numbered
/// consecutively from the next free number.
pub proof fn law_posts_keep_order(t: Tables, a: PostRow, b: PostRow, c: PostRow)
    requires
        t.wf(),
        t.next_post_num + 3 <= u64::MAX,
    ensures
        ({
            let t1 = send_tables(t, a.user, a.message, a.time);
            let t2 = send_tables(t1, b.user, b.message, b.time);
            let t3 = send_tables(t2, c.user, c.message, c.time);
            let n = t.next_post_num;
            &&& send_result(t) == Ok::<u64, BoardError>(n as u64)
            &&& send_result(t1) == Ok::<u64, BoardError>((n + 1) as u64)
            &&& send_result(t2) == Ok::<u64, BoardError>((n + 2) as u64)
            &&& t3.posts == t.posts + seq![
                PostRow { post_num: n as u64, ..a },
                PostRow { post_num: (n + 1) as u64, ..b },
                PostRow { post_num: (n + 2) as u64, ..c },
            ]
            &&& t3.wf()
        }),
{
    let t1 = send_tables(t, a.user, a.message, a.time);
    let t2 = send_tables(t1, b.user, b.message, b.time);
    let t3 = send_tables(t2, c.user, c.message, c.time);
    let n = t.next_post_num;
    lemma_send_keeps_wf(t, a.user, a.message, a.time);
    lemma_send_keeps_wf(t1, b.user, b.message, b.time);
    lemma_send_keeps_wf(t2, c.user, c.message, c.time);
    assert(t3.posts =~= t.posts + seq![
        PostRow { post_num: n as u64, ..a },
        PostRow { post_num: (n + 1) as u64, ..b },
        PostRow { post_num: (n + 2) as u64, ..c },
    ]);
}

/// In every well-formed log, an earlier message has the smaller number.
pub proof fn law_numbers_increase(t: Tables, i: int, j: int)
    requires
        t.wf(),
        0 <= i < j < t.posts.len(),
    ensures
        t.posts[i].post_num < t.posts[j].post_num,
{
}

} // verus!
