//! Values that no argument determines: a random identifier and the date.

use vstd::prelude::*;

verus! {

/// A fresh random identifier, from `uuid::Uuid::new_v4` and the `Display`
/// of the identifier. Trusted: the text is the hyphenated form, 32
/// hexadecimal digits and 4 hyphens. Which digits they are is left open, and
/// two calls may give the same text as far as this contract goes. The call
/// ends the process where the system has no random bytes to give.
#[verifier::external_body]
pub(crate) fn fresh_identifier() -> (r: String)
    ensures
        r@.len() == 36,
{
    uuid::Uuid::new_v4().to_string()
}

/// The current date in UTC as `YYYY-MM-DD`, from `chrono::Utc::now` and
/// `DateTime::format`. Trusted: the text has at least ten characters, a
/// year of four digits or more, a month and a day of two digits each, and two
/// hyphens. Which date it is depends on the clock and is left open. The call
/// ends the process where the clock stands before 1970.
#[verifier::external_body]
pub(crate) fn today() -> (r: String)
    ensures
        r@.len() >= 10,
{
    chrono::Utc::now().format("%Y-%m-%d").to_string()
}

} // verus!
