//! The server's clock: seconds since the epoch for expiry, and the calendar
//! timestamp that messages carry.

use vstd::prelude::*;
use crate::text::{padded, push_char, push_padded};

verus! {

/// `std::time::SystemTime`: an instant that is carried, never looked into.
#[verifier::external_type_specification]
#[verifier::external_body]
pub struct ExSystemTime(std::time::SystemTime);

/// `std::time::SystemTimeError`: only its presence counts.
#[verifier::external_type_specification]
#[verifier::external_body]
pub struct ExSystemTimeError(std::time::SystemTimeError);

/// Lifetime of a session in seconds: forty-eight hours.
pub const SESSION_SECONDS: u64 = 172800;

/// Reads the wall clock through `SystemTime::now`. Nothing is claimed of the
/// result: it differs from call to call.
#[verifier::external_body]
fn wall_clock() -> std::time::SystemTime {
    std::time::SystemTime::now()
}

/// Measures an instant from the Unix epoch through
/// `SystemTime::duration_since`. Nothing is claimed of the result; it is an
/// error when the instant lies before the epoch.
#[verifier::external_body]
fn since_epoch(t: &std::time::SystemTime) -> Result<
    std::time::Duration,
    std::time::SystemTimeError,
> {
    t.duration_since(std::time::UNIX_EPOCH)
}

/// The whole seconds of a duration, through `Duration::as_secs`. Nothing is
/// claimed of the result.
#[verifier::external_body]
fn whole_seconds(d: &std::time::Duration) -> u64 {
    d.as_secs()
}

/// The calendar fields of a minute.
#[derive(Debug, Clone, Copy, PartialEq, Eq)]
pub struct Minute {
    pub year: i32,
    pub month: u8,
    pub day: u8,
    pub hour: u8,
    pub minute: u8,
}

/// Reads the current time in UTC through `OffsetDateTime::now_utc` and takes
/// its calendar fields. Trusted, as the accessors document: the month is
/// 1 to 12, the day 1 to 31, the hour below 24 and the minute below 60.
/// Nothing is claimed of which minute it is.
#[verifier::external_body]
fn current_minute() -> (m: Minute)
    ensures
        1 <= m.month <= 12,
        1 <= m.day <= 31,
        m.hour < 24,
        m.minute < 60,
{
    let now = time::OffsetDateTime::now_utc();
    Minute {
        year: now.year(),
        month: now.month() as u8,
        day: now.day(),
        hour: now.hour(),
        minute: now.minute(),
    }
}

/// The present instant in whole seconds since the Unix epoch, or `None` when
/// the clock is set before the epoch.
pub fn get_time() -> (now: Option<u64>) {
    let t = wall_clock();
    match since_epoch(&t) {
        Ok(d) => Some(whole_seconds(&d)),
        Err(_) => None,
    }
}

/// The instant at which a session issued at `now` lapses.
pub open spec fn expiry_at(now: int) -> int {
    now + SESSION_SECONDS
}

/// The expiry of a session issued at `now`, or `None` when that instant does
/// not fit in 64 bits.
pub fn session_expiry(now: u64) -> (expiry: Option<u64>)
    ensures
        expiry == (if expiry_at(now as int) <= u64::MAX {
            Some(expiry_at(now as int) as u64)
        } else {
            None
        }),
{
    now.checked_add(SESSION_SECONDS)
}

/// The instant two days from now in whole seconds since the Unix epoch, or
/// `None` when the clock is set before the epoch or the instant does not fit
/// in 64 bits.
pub fn get_two_days() -> (expiry: Option<u64>)
    ensures
        expiry is Some ==> expiry.unwrap() >= SESSION_SECONDS,
{
    match get_time() {
        Some(now) => session_expiry(now),
        None => None,
    }
}

/// A year in at least four digits, with a minus sign before a year below 0.
pub open spec fn year_text(year: int) -> Seq<char> {
    if year < 0 {
        seq!['-'] + padded((-year) as nat, 4)
    } else {
        padded(year as nat, 4)
    }
}

/// The timestamp of a minute, `MM/DD/YYYY @ HH:MM`.
pub open spec fn timestamp_text(m: Minute) -> Seq<char> {
    padded(m.month as nat, 2) + seq!['/'] + padded(m.day as nat, 2) + seq!['/'] + year_text(
        m.year as int,
    ) + seq![' ', '@', ' '] + padded(m.hour as nat, 2) + seq![':'] + padded(m.minute as nat, 2)
}

/// Formats a minute as `MM/DD/YYYY @ HH:MM`.
pub fn format_timestamp(m: Minute) -> (text: String)
    ensures
        text@ == timestamp_text(m),
{
    let mut s = String::new();
    push_padded(&mut s, m.month as u32, 2);
    push_char(&mut s, '/');
    push_padded(&mut s, m.day as u32, 2);
    push_char(&mut s, '/');
    if m.year < 0 {
        push_char(&mut s, '-');
        push_padded(&mut s, (-(m.year as i64)) as u32, 4);
    } else {
        push_padded(&mut s, m.year as u32, 4);
    }
    push_char(&mut s, ' ');
    push_char(&mut s, '@');
    push_char(&mut s, ' ');
    push_padded(&mut s, m.hour as u32, 2);
    push_char(&mut s, ':');
    push_padded(&mut s, m.minute as u32, 2);
    assert(s@ =~= timestamp_text(m));
    s
}

/// The present minute of the server's clock as `MM/DD/YYYY @ HH:MM`.
pub fn get_formatted_time() -> (text: String)
    ensures
        exists|m: Minute|
            1 <= m.month <= 12 && 1 <= m.day <= 31 && m.hour < 24 && m.minute < 60 && text@
                == #[trigger] timestamp_text(m),
{
    let m = current_minute();
    format_timestamp(m)
}

} // verus!
