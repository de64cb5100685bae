//! The waitlist signup shapes and the address check they use.

use vstd::prelude::*;

use crate::text::{chars_contain, string_to_chars};

verus! {

#[derive(Debug)]
pub struct WaitlistRequest {
    pub email: String,
}

#[derive(Debug)]
pub struct WaitlistResponse {
    pub success: bool,
    pub message: String,
}

/// A plausible email address: more than five characters (counted as
/// characters, not bytes), with an `@` and a dot somewhere.
pub open spec fn valid_email_spec(e: Seq<char>) -> bool {
    e.len() > 5 && e.contains('@') && e.contains('.')
}

/// Basic email validation.
pub fn is_valid_email(email: &str) -> (r: bool)
    ensures
        r == valid_email_spec(email@),
{
    let chars = string_to_chars(email);
    chars.len() > 5 && chars_contain(&chars, '@') && chars_contain(&chars, '.')
}

} // verus!
