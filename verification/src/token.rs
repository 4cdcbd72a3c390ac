//! Session tokens: opaque random identifiers.

use vstd::prelude::*;

verus! {

/// The length of a token: a hyphenated 128-bit identifier in hexadecimal.
pub const TOKEN_LENGTH: usize = 36;

/// Draws a random identifier with `Uuid::new_v4` and writes it in its
/// hyphenated form. Trusted: that form has 36 characters. Nothing is claimed
/// of which characters they are: they differ from call to call.
#[verifier::external_body]
pub(crate) fn fresh_token() -> (token: String)
    ensures
        token@.len() == TOKEN_LENGTH,
{
    uuid::Uuid::new_v4().to_string()
}

} // verus!
