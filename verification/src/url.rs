//! Construction of the backend lookup URL.

use vstd::prelude::*;

verus! {

/// The URL of one user lookup: the configured backend base address followed
/// by the fixed path template `/users/{id}`.
pub open spec fn spec_user_url(base: Seq<char>, id: Seq<char>) -> Seq<char> {
    base + "/users/"@ + id
}

/// Builds the backend URL for looking up the user with the given identifier.
pub fn build_user_url(base: &str, id: &str) -> (r: String)
    ensures
        r@ == spec_user_url(base@, id@),
{
    let mut s = String::from_str(base);
    s.append("/users/");
    s.append(id);
    s
}

} // verus!
