use liberated_chat::authority::BoardError;
use liberated_chat::wire::{
    get_posts_reply, login_reply, logout_reply, register_reply, send_message_reply, status_of,
};

fn err(text: &str) -> Result<String, String> {
    Err(text.to_string())
}

#[test]
fn every_refusal_has_its_status() {
    assert_eq!(status_of(BoardError::MalformedInput), 400);
    assert_eq!(status_of(BoardError::UsernameTaken), 409);
    assert_eq!(status_of(BoardError::UserDoesNotExist), 409);
    assert_eq!(status_of(BoardError::WrongCredentials), 401);
    assert_eq!(status_of(BoardError::AlreadyLoggedIn), 200);
    assert_eq!(status_of(BoardError::Unauthenticated), 401);
    assert_eq!(status_of(BoardError::Internal), 500);
}

#[test]
fn login_replies() {
    assert_eq!(login_reply(200, ""), Ok("Success!".to_string()));
    assert_eq!(login_reply(200, "welcome"), Ok("welcome".to_string()));
    assert_eq!(login_reply(500, "x"), err("Internal service error!"));
    assert_eq!(login_reply(400, "x"), err("Not all inputs provided!"));
    assert_eq!(login_reply(401, "x"), err("No/invalid login!"));
    assert_eq!(login_reply(409, "x"), err("No user exists!"));
    assert_eq!(login_reply(404, "x"), err("404"));
    assert_eq!(login_reply(201, "x"), err("201"));
}

#[test]
fn register_replies() {
    assert_eq!(register_reply(200, ""), Ok("Success!".to_string()));
    assert_eq!(register_reply(200, "Success!"), Ok("Success!".to_string()));
    assert_eq!(register_reply(500, ""), err("Internal service error!"));
    assert_eq!(register_reply(400, ""), err("Not all inputs provided!"));
    assert_eq!(register_reply(401, ""), err("No/invalid login!"));
    assert_eq!(register_reply(409, ""), err("User already exists!"));
    assert_eq!(register_reply(503, ""), err("503"));
}

#[test]
fn logout_replies() {
    assert_eq!(logout_reply(200), Ok(()));
    assert_eq!(logout_reply(500), Err("Internal service error!".to_string()));
    assert_eq!(logout_reply(400), Err("Not all inputs provided!".to_string()));
    assert_eq!(logout_reply(401), Err("Not logged in!".to_string()));
    assert_eq!(logout_reply(409), Err("409".to_string()));
    assert_eq!(logout_reply(100), Err("100".to_string()));
}

#[test]
fn send_message_replies() {
    assert_eq!(send_message_reply(200), Ok(()));
    assert_eq!(send_message_reply(500), Err("Internal service error!".to_string()));
    assert_eq!(send_message_reply(400), Err("Not all inputs provided!".to_string()));
    assert_eq!(send_message_reply(401), Err("No/invalid login!".to_string()));
    assert_eq!(send_message_reply(409), Err("409".to_string()));
    assert_eq!(send_message_reply(999), Err("999".to_string()));
}

#[test]
fn get_posts_replies() {
    assert_eq!(get_posts_reply(200, "[]"), Ok("[]".to_string()));
    assert_eq!(get_posts_reply(200, ""), Ok("".to_string()));
    assert_eq!(get_posts_reply(500, "[]"), err("Internal service error!"));
    assert_eq!(get_posts_reply(400, "[]"), err("Not all inputs provided!"));
    assert_eq!(get_posts_reply(401, "[]"), err("No/invalid login!"));
    assert_eq!(get_posts_reply(409, "[]"), err("No user exists!"));
    assert_eq!(get_posts_reply(302, "[]"), err("302"));
}
