//! Outside collaborators behind trusted wrappers: the wall clock, the
//! entropy source for fresh token secrets, and the email-shape check used
//! by request validation. Every verified caller takes these results as
//! arguments or goes through the contracts stated here.

use vstd::prelude::*;

verus! {

/// Whether a string has the shape of a valid email address under the HTML5
/// address grammar, as the `validator` crate decides it. The result is a
/// function of the characters alone.
pub uninterp spec fn is_valid_email(s: Seq<char>) -> bool;

/// Relies on `validator::ValidateEmail::validate_email` (for `&str`): the
/// HTML5 email check, a pure function of the string; an empty string and a
/// string without `'@'` are rejected.
#[verifier::external_body]
pub(crate) fn check_email(s: &str) -> (r: bool)
    ensures
        r == is_valid_email(s@),
        s@.len() == 0 ==> !r,
        !s@.contains('@') ==> !r,
{
    validator::ValidateEmail::validate_email(&s)
}

/// Relies on `chrono::Utc::now().timestamp()`: seconds since the Unix
/// epoch. The value depends on the wall clock, so nothing is promised of it.
#[verifier::external_body]
fn now_timestamp() -> i64 {
    chrono::Utc::now().timestamp()
}

/// The current time as unsigned seconds since the Unix epoch; a clock
/// reading before the epoch is reported as the epoch itself.
pub fn unix_now() -> u64 {
    let t = now_timestamp();
    if t < 0 {
        0
    } else {
        t as u64
    }
}

} // verus!
