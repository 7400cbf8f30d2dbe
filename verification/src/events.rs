//! The event names of the client-facing protocol, and which inbound events
//! the gateway recognizes.

use vstd::prelude::*;

verus! {

/// Whether the gateway attaches a handler to an inbound event of this name.
/// Exactly one event is recognized; every other name is ignored silently.
pub open spec fn spec_handles_event(name: Seq<char>) -> bool {
    name == "get_user"@
}

/// The single inbound event name the gateway listens for.
pub fn get_user_event() -> (r: &'static str)
    ensures
        r@ == "get_user"@,
{
    "get_user"
}

/// Decides whether an inbound event of the given name gets a handler.
pub fn handles_event(name: &str) -> (r: bool)
    ensures
        r == spec_handles_event(name@),
{
    let given = name.to_owned();
    let recognized = "get_user".to_owned();
    given == recognized
}

/// Law: an unrecognized inbound event name gets no handler, so it produces
/// neither a reply nor an error.
pub proof fn lemma_unrecognized_event_ignored(name: Seq<char>)
    requires
        name != "get_user"@,
    ensures
        !spec_handles_event(name),
{
}

} // verus!
