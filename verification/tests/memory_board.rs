use liberated_chat::authority::{
    generate_session, get_posts, get_username_from_session, issue_session, logout,
    logout_verdict, password_verdict, register_user, send_message, session_grants,
    validate_password, validate_session, validate_session_at, BoardError,
};
use liberated_chat::hasher::{hash, HashError};
use liberated_chat::memory::MemoryStore;
use liberated_chat::requests::{
    authorize, authorize_at, credentials, login, login_at, logout_at, newpost, newpost_at,
    posts, posts_at, register, register_hashed, Rejected,
};
use liberated_chat::store::{Store, StoreError};
use liberated_chat::types::{InsertPost, Post, Session};

fn board_with_alice() -> MemoryStore {
    let mut db = MemoryStore::new();
    assert_eq!(register(Some("alice"), Some("pw1"), &mut db), Ok(()));
    db
}

#[test]
fn registering_twice_conflicts_and_keeps_the_first_record() {
    let mut db = MemoryStore::new();
    assert_eq!(register_user("alice", "first-record", &mut db), Ok(()));
    assert_eq!(
        register_user("alice", "second-record", &mut db),
        Err(BoardError::UsernameTaken)
    );
    assert_eq!(db.find_record("alice"), Ok(Some("first-record".to_string())));
    assert_eq!(db.insert_user("alice", "third"), Err(StoreError::Conflict));
    assert_eq!(db.find_record("alice"), Ok(Some("first-record".to_string())));
}

#[test]
fn register_needs_both_fields() {
    let mut db = MemoryStore::new();
    assert_eq!(register(None, Some("pw"), &mut db), Err(BoardError::MalformedInput));
    assert_eq!(register(Some("alice"), None, &mut db), Err(BoardError::MalformedInput));
    assert_eq!(register(Some(""), Some("pw"), &mut db), Err(BoardError::MalformedInput));
    assert_eq!(register(Some("alice"), Some(""), &mut db), Err(BoardError::MalformedInput));
    assert_eq!(db.find_record("alice"), Ok(None));
    assert_eq!(register(Some("alice"), Some("pw"), &mut db), Ok(()));
    assert_eq!(register(Some("alice"), Some("pw"), &mut db), Err(BoardError::UsernameTaken));
}

#[test]
fn credentials_are_checked_before_anything_else() {
    assert_eq!(credentials(Some("a"), Some("b")), Ok(("a", "b")));
    assert_eq!(credentials(Some(""), Some("b")), Err(BoardError::MalformedInput));
    assert_eq!(credentials(Some("a"), Some("")), Err(BoardError::MalformedInput));
    assert_eq!(credentials(None, Some("b")), Err(BoardError::MalformedInput));
    assert_eq!(credentials(Some("a"), None), Err(BoardError::MalformedInput));
    assert_eq!(credentials(None, None), Err(BoardError::MalformedInput));
}

#[test]
fn a_failed_hash_registers_nothing() {
    let mut db = MemoryStore::new();
    assert_eq!(register_hashed("alice", Err(HashError), &mut db), Err(BoardError::Internal));
    assert_eq!(db.find_record("alice"), Ok(None));
    assert_eq!(register_hashed("alice", Ok("rec".to_string()), &mut db), Ok(()));
    assert_eq!(db.find_record("alice"), Ok(Some("rec".to_string())));
    assert_eq!(
        register_hashed("alice", Ok("other".to_string()), &mut db),
        Err(BoardError::UsernameTaken)
    );
}

#[test]
fn password_check_through_the_store() {
    let mut db = MemoryStore::new();
    let record = hash("pw1").unwrap();
    assert_eq!(register_user("alice", &record, &mut db), Ok(()));
    assert_eq!(validate_password("alice", "pw1", &db), Ok(true));
    assert_eq!(validate_password("alice", "pw2", &db), Ok(false));
    assert_eq!(validate_password("bob", "pw1", &db), Err(BoardError::UserDoesNotExist));
    assert_eq!(password_verdict(&None, "pw1"), Err(BoardError::UserDoesNotExist));
    assert_eq!(password_verdict(&Some(record), "pw1"), Ok(true));
    assert_eq!(password_verdict(&Some("broken".to_string()), "pw1"), Ok(false));
}

#[test]
fn login_returns_a_token_that_authorizes() {
    let mut db = board_with_alice();
    let token = login_at("alice", "pw1", None, 1_000, "T1".to_string(), &mut db).unwrap();
    assert_eq!(token, "T1");
    assert_eq!(authorize_at(Some("T1"), 1_000, &db), Ok("alice".to_string()));
    assert_eq!(
        db.find_session("alice"),
        Ok(Some(Session { token: "T1".to_string(), expiry: 1_000 + 172_800 }))
    );
}

#[test]
fn a_session_lapses_after_forty_eight_hours() {
    let mut db = board_with_alice();
    login_at("alice", "pw1", None, 1_000, "T1".to_string(), &mut db).unwrap();
    assert_eq!(authorize_at(Some("T1"), 173_799, &db), Ok("alice".to_string()));
    assert_eq!(authorize_at(Some("T1"), 173_800, &db), Err(Rejected));
    assert_eq!(authorize_at(Some("T1"), 173_801, &db), Err(Rejected));
    assert_eq!(validate_session_at("alice", "T1", 173_799, &db), Ok(true));
    assert_eq!(validate_session_at("alice", "T1", 173_800, &db), Ok(false));
    // A lapsed session no longer stops a login.
    assert_eq!(
        login_at("alice", "pw1", Some("T1"), 173_800, "T2".to_string(), &mut db),
        Ok("T2".to_string())
    );
}

#[test]
fn login_failures_in_their_order() {
    let mut db = board_with_alice();
    assert_eq!(
        login_at("bob", "pw1", None, 10, "T".to_string(), &mut db),
        Err(BoardError::UserDoesNotExist)
    );
    assert_eq!(
        login_at("alice", "wrong", None, 10, "T".to_string(), &mut db),
        Err(BoardError::WrongCredentials)
    );
    assert_eq!(db.find_session("alice"), Ok(None));
    login_at("alice", "pw1", None, 10, "T1".to_string(), &mut db).unwrap();
    // A wrong password is reported even while a valid token is presented.
    assert_eq!(
        login_at("alice", "wrong", Some("T1"), 20, "T2".to_string(), &mut db),
        Err(BoardError::WrongCredentials)
    );
    assert_eq!(login(None, Some("pw1"), None, &mut db), Err(BoardError::MalformedInput));
    assert_eq!(login(Some("alice"), Some(""), None, &mut db), Err(BoardError::MalformedInput));
    assert_eq!(login(Some("bob"), Some("pw"), None, &mut db), Err(BoardError::UserDoesNotExist));
    assert_eq!(
        login(Some("alice"), Some("nope"), None, &mut db),
        Err(BoardError::WrongCredentials)
    );
}

#[test]
fn second_login_invalidates_the_first_token() {
    let mut db = board_with_alice();
    login_at("alice", "pw1", None, 10, "T1".to_string(), &mut db).unwrap();
    assert_eq!(
        login_at("alice", "pw1", None, 20, "T2".to_string(), &mut db),
        Ok("T2".to_string())
    );
    assert_eq!(authorize_at(Some("T1"), 30, &db), Err(Rejected));
    assert_eq!(authorize_at(Some("T2"), 30, &db), Ok("alice".to_string()));
    assert_eq!(db.find_holder("T1"), Ok(None));
}

#[test]
fn login_with_a_valid_token_is_already_logged_in() {
    let mut db = board_with_alice();
    login_at("alice", "pw1", None, 10, "T1".to_string(), &mut db).unwrap();
    assert_eq!(
        login_at("alice", "pw1", Some("T1"), 20, "T2".to_string(), &mut db),
        Err(BoardError::AlreadyLoggedIn)
    );
    assert_eq!(
        db.find_session("alice"),
        Ok(Some(Session { token: "T1".to_string(), expiry: 10 + 172_800 }))
    );
    // A token that is not the user's does not stop the login.
    assert_eq!(
        login_at("alice", "pw1", Some("other"), 20, "T2".to_string(), &mut db),
        Ok("T2".to_string())
    );
}

#[test]
fn a_token_held_by_someone_else_is_not_issued() {
    let mut db = board_with_alice();
    assert_eq!(register(Some("bob"), Some("pw2"), &mut db), Ok(()));
    login_at("alice", "pw1", None, 10, "T1".to_string(), &mut db).unwrap();
    assert_eq!(
        login_at("bob", "pw2", None, 20, "T1".to_string(), &mut db),
        Err(BoardError::Internal)
    );
    assert_eq!(db.find_session("bob"), Ok(None));
    assert_eq!(authorize_at(Some("T1"), 30, &db), Ok("alice".to_string()));
    assert_eq!(db.put_session("bob", "T1", 5), Err(StoreError::Conflict));
    assert_eq!(issue_session("bob", "T1".to_string(), 5, &mut db), Err(BoardError::Internal));
    assert_eq!(issue_session("alice", "T1".to_string(), 5, &mut db), Ok("T1".to_string()));
    assert_eq!(
        db.find_session("alice"),
        Ok(Some(Session { token: "T1".to_string(), expiry: 5 }))
    );
}

#[test]
fn logout_ends_the_session_once() {
    let mut db = board_with_alice();
    login_at("alice", "pw1", None, 10, "T1".to_string(), &mut db).unwrap();
    assert_eq!(logout("alice", &mut db), Ok(()));
    assert_eq!(authorize_at(Some("T1"), 20, &db), Err(Rejected));
    assert_eq!(logout("alice", &mut db), Err(BoardError::Unauthenticated));
    assert_eq!(logout_verdict(true), Ok(()));
    assert_eq!(logout_verdict(false), Err(BoardError::Unauthenticated));
}

#[test]
fn logout_by_token() {
    let mut db = board_with_alice();
    login_at("alice", "pw1", None, 10, "T1".to_string(), &mut db).unwrap();
    assert_eq!(logout_at(None, 20, &mut db), Err(BoardError::Unauthenticated));
    assert_eq!(logout_at(Some("nope"), 20, &mut db), Err(BoardError::Unauthenticated));
    assert_eq!(logout_at(Some("T1"), 10 + 172_800, &mut db), Err(BoardError::Unauthenticated));
    assert_eq!(logout_at(Some("T1"), 20, &mut db), Ok(()));
    assert_eq!(logout_at(Some("T1"), 20, &mut db), Err(BoardError::Unauthenticated));
    assert_eq!(db.find_session("alice"), Ok(None));
}

#[test]
fn authorize_rejects_every_bad_token_alike() {
    let mut db = board_with_alice();
    login_at("alice", "pw1", None, 10, "T1".to_string(), &mut db).unwrap();
    assert_eq!(authorize_at(None, 20, &db), Err(Rejected));
    assert_eq!(authorize_at(Some(""), 20, &db), Err(Rejected));
    assert_eq!(authorize_at(Some("t1"), 20, &db), Err(Rejected));
    assert_eq!(authorize_at(Some("T1 "), 20, &db), Err(Rejected));
    assert_eq!(authorize_at(Some("T1"), u64::MAX, &db), Err(Rejected));
    assert_eq!(authorize(None, &db), Err(Rejected));
    assert_eq!(authorize(Some("unknown"), &db), Err(Rejected));
}

#[test]
fn session_check_on_looked_up_rows() {
    let row = Some(Session { token: "abc".to_string(), expiry: 50 });
    assert!(session_grants(&row, "abc", 49));
    assert!(session_grants(&row, "abc", 0));
    assert!(!session_grants(&row, "abc", 50));
    assert!(!session_grants(&row, "abd", 49));
    assert!(!session_grants(&row, "ABC", 49));
    assert!(!session_grants(&row, "ab", 49));
    assert!(!session_grants(&row, "", 49));
    assert!(!session_grants(&None, "abc", 49));
}

#[test]
fn identity_survives_expiry_but_not_logout() {
    let mut db = MemoryStore::new();
    assert_eq!(issue_session("alice", "T1".to_string(), 100, &mut db), Ok("T1".to_string()));
    assert_eq!(get_username_from_session("T1", &db), Ok("alice".to_string()));
    assert_eq!(validate_session_at("alice", "T1", 100, &db), Ok(false));
    assert_eq!(get_username_from_session("T0", &db), Err(BoardError::Unauthenticated));
    assert_eq!(logout("alice", &mut db), Ok(()));
    assert_eq!(get_username_from_session("T1", &db), Err(BoardError::Unauthenticated));
}

#[test]
fn messages_appear_in_the_order_posted() {
    let mut db = MemoryStore::new();
    let a1 = InsertPost { user: "a".to_string(), message: "one".to_string(), time: "t1".to_string() };
    let b = InsertPost { user: "b".to_string(), message: "two".to_string(), time: "t2".to_string() };
    let a2 = InsertPost { user: "a".to_string(), message: "three".to_string(), time: "t3".to_string() };
    assert_eq!(get_posts(&db), Ok(vec![]));
    assert_eq!(send_message(&a1, &mut db), Ok(1));
    assert_eq!(send_message(&b, &mut db), Ok(2));
    assert_eq!(send_message(&a2, &mut db), Ok(3));
    assert_eq!(
        get_posts(&db),
        Ok(vec![
            Post { post_num: 1, user: "a".to_string(), message: "one".to_string(), time: "t1".to_string() },
            Post { post_num: 2, user: "b".to_string(), message: "two".to_string(), time: "t2".to_string() },
            Post { post_num: 3, user: "a".to_string(), message: "three".to_string(), time: "t3".to_string() },
        ])
    );
}

#[test]
fn posting_and_reading_need_a_live_token() {
    let mut db = board_with_alice();
    login_at("alice", "pw1", None, 10, "T1".to_string(), &mut db).unwrap();
    assert_eq!(
        newpost_at(None, "hi", 20, "stamp".to_string(), &mut db),
        Err(BoardError::Unauthenticated)
    );
    assert_eq!(
        newpost_at(Some("bad"), "hi", 20, "stamp".to_string(), &mut db),
        Err(BoardError::Unauthenticated)
    );
    assert_eq!(posts_at(Some("T1"), 20, &db), Ok(vec![]));
    assert_eq!(newpost_at(Some("T1"), "hi", 20, "stamp".to_string(), &mut db), Ok(1));
    assert_eq!(newpost_at(Some("T1"), "", 21, "stamp2".to_string(), &mut db), Ok(2));
    assert_eq!(
        posts_at(Some("T1"), 22, &db),
        Ok(vec![
            Post { post_num: 1, user: "alice".to_string(), message: "hi".to_string(), time: "stamp".to_string() },
            Post { post_num: 2, user: "alice".to_string(), message: "".to_string(), time: "stamp2".to_string() },
        ])
    );
    assert_eq!(posts_at(None, 22, &db), Err(BoardError::Unauthenticated));
    assert_eq!(posts_at(Some("T1"), 10 + 172_800, &db), Err(BoardError::Unauthenticated));
    assert_eq!(posts(None, &db), Err(BoardError::Unauthenticated));
    assert_eq!(newpost(None, "x", &mut db), Err(BoardError::Unauthenticated));
}

#[test]
fn example_scenario() {
    let mut db = MemoryStore::new();
    assert_eq!(register(Some("alice"), Some("pw1"), &mut db), Ok(()));
    let t1 = login(Some("alice"), Some("pw1"), None, &mut db).unwrap();
    assert_eq!(newpost(Some(&t1), "hi", &mut db), Ok(1));
    assert_eq!(
        login(Some("alice"), Some("pw1"), Some(&t1), &mut db),
        Err(BoardError::AlreadyLoggedIn)
    );
    assert_eq!(validate_session("alice", &t1, &db), Ok(true));
    assert_eq!(logout("alice", &mut db), Ok(()));
    let t2 = login(Some("alice"), Some("pw1"), None, &mut db).unwrap();
    assert_ne!(t1, t2);
    assert_eq!(authorize(Some(&t1), &db), Err(Rejected));
    assert_eq!(authorize(Some(&t2), &db), Ok("alice".to_string()));
    let log = posts(Some(&t2), &db).unwrap();
    assert_eq!(log.len(), 1);
    assert_eq!((log[0].post_num, log[0].user.as_str(), log[0].message.as_str()), (1, "alice", "hi"));
    assert_eq!(log[0].time.chars().count(), 18);
}

#[test]
fn generated_sessions_last_two_days() {
    let mut db = MemoryStore::new();
    let token = generate_session("alice", &mut db).unwrap();
    let row = db.find_session("alice").unwrap().unwrap();
    assert_eq!(row.token, token);
    let now = liberated_chat::clock::get_time().unwrap();
    assert!(row.expiry >= now + 172_800 - 5 && row.expiry <= now + 172_800);
}

#[test]
fn store_rows_can_be_read_back() {
    let mut db = MemoryStore::new();
    assert_eq!(db.find_session("alice"), Ok(None));
    assert_eq!(db.find_holder("t"), Ok(None));
    assert_eq!(db.delete_session("alice"), Ok(false));
    assert_eq!(db.put_session("alice", "t", 9), Ok(()));
    assert_eq!(db.put_session("bob", "u", 8), Ok(()));
    assert_eq!(db.find_holder("t"), Ok(Some("alice".to_string())));
    assert_eq!(db.find_holder("u"), Ok(Some("bob".to_string())));
    assert_eq!(db.delete_session("alice"), Ok(true));
    assert_eq!(db.find_holder("t"), Ok(None));
    assert_eq!(db.find_session("bob"), Ok(Some(Session { token: "u".to_string(), expiry: 8 })));
    assert_eq!(db.all_posts(), Ok(vec![]));
}

#[test]
fn a_token_in_use_is_never_issued_again() {
    let mut db = board_with_alice();
    login_at("alice", "pw1", None, 10, "T1".to_string(), &mut db).unwrap();
    // Not even to the user who holds it.
    assert_eq!(
        login_at("alice", "pw1", None, 20, "T1".to_string(), &mut db),
        Err(BoardError::Internal)
    );
    assert_eq!(
        db.find_session("alice"),
        Ok(Some(Session { token: "T1".to_string(), expiry: 10 + 172_800 }))
    );
    assert_eq!(authorize_at(Some("T1"), 30, &db), Ok("alice".to_string()));
}

#[test]
fn a_login_whose_expiry_does_not_fit_is_an_internal_failure() {
    let mut db = board_with_alice();
    assert_eq!(
        login_at("alice", "pw1", None, u64::MAX - 172_799, "T1".to_string(), &mut db),
        Err(BoardError::Internal)
    );
    assert_eq!(db.find_session("alice"), Ok(None));
    assert_eq!(
        login_at("alice", "nope", None, u64::MAX, "T1".to_string(), &mut db),
        Err(BoardError::WrongCredentials)
    );
    assert_eq!(
        login_at("alice", "pw1", None, u64::MAX - 172_800, "T1".to_string(), &mut db),
        Ok("T1".to_string())
    );
    assert_eq!(
        db.find_session("alice"),
        Ok(Some(Session { token: "T1".to_string(), expiry: u64::MAX }))
    );
    // A still valid token is answered as such at every clock reading.
    assert_eq!(
        login_at("alice", "pw1", Some("T1"), u64::MAX - 1, "T2".to_string(), &mut db),
        Err(BoardError::AlreadyLoggedIn)
    );
}

#[test]
fn a_superseded_token_stays_rejected() {
    let mut db = board_with_alice();
    assert_eq!(register(Some("bob"), Some("pw2"), &mut db), Ok(()));
    login_at("alice", "pw1", None, 10, "T1".to_string(), &mut db).unwrap();
    login_at("alice", "pw1", None, 20, "T2".to_string(), &mut db).unwrap();
    assert_eq!(authorize_at(Some("T1"), 30, &db), Err(Rejected));
    assert_eq!(register(Some("carol"), Some("pw3"), &mut db), Ok(()));
    assert_eq!(authorize_at(Some("T1"), 30, &db), Err(Rejected));
    assert_eq!(newpost_at(Some("T2"), "hi", 30, "stamp".to_string(), &mut db), Ok(1));
    assert_eq!(authorize_at(Some("T1"), 30, &db), Err(Rejected));
    login_at("bob", "pw2", None, 40, "T3".to_string(), &mut db).unwrap();
    assert_eq!(authorize_at(Some("T1"), 50, &db), Err(Rejected));
    assert_eq!(logout_at(Some("T3"), 60, &mut db), Ok(()));
    assert_eq!(authorize_at(Some("T1"), 70, &db), Err(Rejected));
    assert_eq!(logout("alice", &mut db), Ok(()));
    assert_eq!(authorize_at(Some("T1"), 80, &db), Err(Rejected));
}

#[test]
fn a_missing_token_is_unauthenticated_whatever_else() {
    let mut db = MemoryStore::new();
    assert_eq!(posts(None, &db), Err(BoardError::Unauthenticated));
    assert_eq!(newpost(None, "x", &mut db), Err(BoardError::Unauthenticated));
    assert_eq!(liberated_chat::requests::logout(None, &mut db), Err(BoardError::Unauthenticated));
    assert_eq!(db.all_posts(), Ok(vec![]));
}
