//! Interpretation of backend HTTP status codes and the text of the reply
//! message that reports a rejected request.

use vstd::prelude::*;
use crate::digits::spec_decimal;
use crate::digits::u16_decimal;

verus! {

/// Whether a status code counts as success: the 2xx range, exactly as the
/// HTTP client's own success test has it.
pub open spec fn spec_is_success_status(code: u16) -> bool {
    200 <= code < 300
}

/// A backend response counts as successful exactly when its status is 2xx.
pub fn is_success_status(code: u16) -> (r: bool)
    ensures
        r == spec_is_success_status(code),
{
    200 <= code && code < 300
}

/// The canonical reason phrase of an HTTP status code, if the registry has
/// one: a fixed table lookup on the numeric code alone. Codes outside
/// 100..=999 are no status codes and have no phrase.
pub uninterp spec fn canonical_reason_of(code: u16) -> Option<Seq<char>>;

/// Relies on `http::StatusCode::from_u16` and
/// `http::StatusCode::canonical_reason`: `from_u16` accepts exactly the codes
/// 100..=999, and `canonical_reason` is a constant match on the numeric code,
/// so the phrase depends on the code alone.
#[verifier::external_body]
fn canonical_reason_text(code: u16) -> (r: Option<&'static str>)
    ensures
        r matches Some(t) ==> canonical_reason_of(code) == Some(t@),
        r is None ==> canonical_reason_of(code) is None,
{
    match http::StatusCode::from_u16(code) {
        Ok(status) => status.canonical_reason(),
        Err(_) => None,
    }
}

/// The textual rendering of a status code: the reason phrase where the
/// registry has one, else the same placeholder the HTTP library displays.
pub open spec fn spec_reason_text(code: u16) -> Seq<char> {
    match canonical_reason_of(code) {
        Some(phrase) => phrase,
        None => "<unknown status code>"@,
    }
}

/// The message that reports a backend rejection: a fixed prefix, then the
/// numeric status, a space, and the status's textual rendering.
pub open spec fn spec_status_message(code: u16) -> Seq<char> {
    "Backend error: "@ + spec_decimal(code as nat) + " "@ + spec_reason_text(code)
}

/// Builds the reply message for a backend rejection with the given status.
pub fn status_message(code: u16) -> (s: String)
    ensures
        s@ == spec_status_message(code),
{
    let mut s = String::from_str("Backend error: ");
    let digits = u16_decimal(code);
    s.append(digits.as_str());
    s.append(" ");
    match canonical_reason_text(code) {
        Some(phrase) => s.append(phrase),
        None => s.append("<unknown status code>"),
    }
    s
}

} // verus!
