//! The status codes through which the board answers over HTTP, and how a
//! client reads them back.

use vstd::prelude::*;
use crate::authority::BoardError;
use crate::text::{decimal, owned, push_decimal};

verus! {

pub const OK: u16 = 200;

pub const BAD_REQUEST: u16 = 400;

pub const UNAUTHORIZED: u16 = 401;

pub const CONFLICT: u16 = 409;

pub const INTERNAL_SERVER_ERROR: u16 = 500;

/// The status that stands for each refusal. A login that finds the caller
/// logged in already is answered with `OK` and no token.
pub open spec fn status_for(e: BoardError) -> u16 {
    match e {
        BoardError::MalformedInput => BAD_REQUEST,
        BoardError::UsernameTaken => CONFLICT,
        BoardError::UserDoesNotExist => CONFLICT,
        BoardError::WrongCredentials => UNAUTHORIZED,
        BoardError::AlreadyLoggedIn => OK,
        BoardError::Unauthenticated => UNAUTHORIZED,
        BoardError::Internal => INTERNAL_SERVER_ERROR,
    }
}

/// The status with which the server answers a refusal.
pub fn status_of(e: BoardError) -> (status: u16)
    ensures
        status == status_for(e),
{
    match e {
        BoardError::MalformedInput => BAD_REQUEST,
        BoardError::UsernameTaken => CONFLICT,
        BoardError::UserDoesNotExist => CONFLICT,
        BoardError::WrongCredentials => UNAUTHORIZED,
        BoardError::AlreadyLoggedIn => OK,
        BoardError::Unauthenticated => UNAUTHORIZED,
        BoardError::Internal => INTERNAL_SERVER_ERROR,
    }
}

/// The texts inside a reply.
pub open spec fn reply_text(r: Result<String, String>) -> Result<Seq<char>, Seq<char>> {
    match r {
        Ok(s) => Ok(s@),
        Err(s) => Err(s@),
    }
}

/// The complaint inside a reply that carries nothing on success.
pub open spec fn complaint_text(r: Result<(), String>) -> Result<(), Seq<char>> {
    match r {
        Ok(()) => Ok(()),
        Err(s) => Err(s@),
    }
}

/// What a client says of a body that came with `OK`: an empty body reads as
/// plain success.
pub open spec fn success_text(body: Seq<char>) -> Seq<char> {
    if body.len() == 0 {
        "Success!"@
    } else {
        body
    }
}

/// What a client says of a status that is not `OK`. `unauthorized` and
/// `conflict` are what the operation at hand calls those two; a status that
/// the operation does not know is named by its number.
pub open spec fn failure_text(
    status: u16,
    unauthorized: Seq<char>,
    conflict: Option<Seq<char>>,
) -> Seq<char> {
    if status == INTERNAL_SERVER_ERROR {
        "Internal service error!"@
    } else if status == BAD_REQUEST {
        "Not all inputs provided!"@
    } else if status == UNAUTHORIZED {
        unauthorized
    } else if status == CONFLICT && conflict is Some {
        conflict.unwrap()
    } else {
        decimal(status as nat)
    }
}

/// The reply to a login.
pub open spec fn login_reply_text(status: u16, body: Seq<char>) -> Result<Seq<char>, Seq<char>> {
    if status == OK {
        Ok(success_text(body))
    } else {
        Err(failure_text(status, "No/invalid login!"@, Some("No user exists!"@)))
    }
}

/// The reply to a registration.
pub open spec fn register_reply_text(status: u16, body: Seq<char>) -> Result<
    Seq<char>,
    Seq<char>,
> {
    if status == OK {
        Ok(success_text(body))
    } else {
        Err(failure_text(status, "No/invalid login!"@, Some("User already exists!"@)))
    }
}

/// The reply to a logout.
pub open spec fn logout_reply_text(status: u16) -> Result<(), Seq<char>> {
    if status == OK {
        Ok(())
    } else {
        Err(failure_text(status, "Not logged in!"@, None))
    }
}

/// The reply to a posted message.
pub open spec fn send_message_reply_text(status: u16) -> Result<(), Seq<char>> {
    if status == OK {
        Ok(())
    } else {
        Err(failure_text(status, "No/invalid login!"@, None))
    }
}

/// The reply to a request for the log: the body as it came, or a complaint.
pub open spec fn get_posts_reply_text(status: u16, body: Seq<char>) -> Result<
    Seq<char>,
    Seq<char>,
> {
    if status == OK {
        Ok(body)
    } else {
        Err(failure_text(status, "No/invalid login!"@, Some("No user exists!"@)))
    }
}

fn success(body: &str) -> (text: String)
    ensures
        text@ == success_text(body@),
{
    if body.is_empty() {
        owned("Success!")
    } else {
        owned(body)
    }
}

fn failure(status: u16, unauthorized: &str, conflict: Option<&str>) -> (text: String)
    ensures
        text@ == failure_text(
            status,
            unauthorized@,
            match conflict {
                Some(c) => Some(c@),
                None => None,
            },
        ),
{
    if status == INTERNAL_SERVER_ERROR {
        owned("Internal service error!")
    } else if status == BAD_REQUEST {
        owned("Not all inputs provided!")
    } else if status == UNAUTHORIZED {
        owned(unauthorized)
    } else {
        match conflict {
            Some(c) if status == CONFLICT => owned(c),
            _ => {
                let mut text = String::new();
                push_decimal(&mut text, status as u32);
                assert(text@ =~= decimal(status as nat));
                text
            },
        }
    }
}

/// Reads the answer to a login: the body, or `Success!` for an empty one, on
/// `OK`; a complaint otherwise.
pub fn login_reply(status: u16, body: &str) -> (reply: Result<String, String>)
    ensures
        reply_text(reply) == login_reply_text(status, body@),
{
    if status == OK {
        Ok(success(body))
    } else {
        Err(failure(status, "No/invalid login!", Some("No user exists!")))
    }
}

/// Reads the answer to a registration.
pub fn register_reply(status: u16, body: &str) -> (reply: Result<String, String>)
    ensures
        reply_text(reply) == register_reply_text(status, body@),
{
    if status == OK {
        Ok(success(body))
    } else {
        Err(failure(status, "No/invalid login!", Some("User already exists!")))
    }
}

/// Reads the answer to a logout.
pub fn logout_reply(status: u16) -> (reply: Result<(), String>)
    ensures
        complaint_text(reply) == logout_reply_text(status),
{
    if status == OK {
        Ok(())
    } else {
        Err(failure(status, "Not logged in!", None))
    }
}

/// Reads the answer to a posted message.
pub fn send_message_reply(status: u16) -> (reply: Result<(), String>)
    ensures
        complaint_text(reply) == send_message_reply_text(status),
{
    if status == OK {
        Ok(())
    } else {
        Err(failure(status, "No/invalid login!", None))
    }
}

/// Reads the answer to a request for the log.
pub fn get_posts_reply(status: u16, body: &str) -> (reply: Result<String, String>)
    ensures
        reply_text(reply) == get_posts_reply_text(status, body@),
{
    if status == OK {
        Ok(owned(body))
    } else {
        Err(failure(status, "No/invalid login!", Some("No user exists!")))
    }
}

} // verus!
