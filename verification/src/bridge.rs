//! The event bridge: translates the outcome of one backend lookup into
//! exactly one reply event for the originating connection.

use vstd::prelude::*;
use crate::digits::spec_decimal;
use crate::status::is_success_status;
use crate::status::spec_is_success_status;
use crate::status::spec_status_message;
use crate::status::status_message;
use crate::user::User;
use crate::user::UserModel;

verus! {

/// The four mutually exclusive outcomes of one backend lookup.
pub enum BackendOutcome {
    /// The backend answered with a success status and a well-formed body.
    Success(User),
    /// The backend answered, but with a status outside the success range.
    BadStatus(u16),
    /// The backend answered with a success status, but the body did not
    /// decode into a user record.
    MalformedResponse,
    /// The request to the backend could not complete at all.
    TransportFailure,
}

/// Mathematical model of a backend outcome.
pub enum OutcomeModel {
    Success(UserModel),
    BadStatus(u16),
    MalformedResponse,
    TransportFailure,
}

impl View for BackendOutcome {
    type V = OutcomeModel;

    open spec fn view(&self) -> OutcomeModel {
        match self {
            BackendOutcome::Success(user) => OutcomeModel::Success(user@),
            BackendOutcome::BadStatus(code) => OutcomeModel::BadStatus(*code),
            BackendOutcome::MalformedResponse => OutcomeModel::MalformedResponse,
            BackendOutcome::TransportFailure => OutcomeModel::TransportFailure,
        }
    }
}

/// The one reply event sent back on the originating connection.
pub enum Reply {
    /// The `user_data` event, carrying the fetched record.
    UserData(User),
    /// The `request_error` event, carrying a plain message.
    RequestError(String),
}

/// Mathematical model of a reply event.
pub enum ReplyModel {
    UserData(UserModel),
    RequestError(Seq<char>),
}

impl Reply {
    /// The event name under which this reply is emitted.
    pub fn event_name(&self) -> (r: &'static str)
        ensures
            self is UserData ==> r@ == "user_data"@,
            self is RequestError ==> r@ == "request_error"@,
    {
        match self {
            Reply::UserData(_) => "user_data",
            Reply::RequestError(_) => "request_error",
        }
    }
}

impl View for Reply {
    type V = ReplyModel;

    open spec fn view(&self) -> ReplyModel {
        match self {
            Reply::UserData(user) => ReplyModel::UserData(user@),
            Reply::RequestError(message) => ReplyModel::RequestError(message@),
        }
    }
}

/// The fixed message reporting a body that did not decode.
pub open spec fn parse_failure_message() -> Seq<char> {
    "Failed to parse the backend JSON response."@
}

/// The fixed message reporting an unreachable backend.
pub open spec fn unreachable_message() -> Seq<char> {
    "Could not reach the backend service."@
}

/// How each backend outcome maps to its reply: a successful lookup is
/// relayed as `user_data` with the record unchanged; every failure is
/// reported as `request_error` with the message the failure calls for.
pub open spec fn spec_bridge(outcome: OutcomeModel) -> ReplyModel {
    match outcome {
        OutcomeModel::Success(user) => ReplyModel::UserData(user),
        OutcomeModel::BadStatus(code) => ReplyModel::RequestError(spec_status_message(code)),
        OutcomeModel::MalformedResponse => ReplyModel::RequestError(parse_failure_message()),
        OutcomeModel::TransportFailure => ReplyModel::RequestError(unreachable_message()),
    }
}

/// How one backend HTTP response is classified: a status outside the
/// success range is a rejection whatever the body held; under a success
/// status the response is the decoded record, or malformed where the body
/// did not decode into one.
pub open spec fn spec_interpret_response(status: u16, parsed: Option<UserModel>) -> OutcomeModel {
    if !spec_is_success_status(status) {
        OutcomeModel::BadStatus(status)
    } else {
        match parsed {
            Some(user) => OutcomeModel::Success(user),
            None => OutcomeModel::MalformedResponse,
        }
    }
}

/// Classifies one answered backend response from its status code and, for a
/// success status, the decoded body (`None` where the body did not decode).
pub fn interpret_response(status: u16, parsed: Option<User>) -> (o: BackendOutcome)
    ensures
        o@ == spec_interpret_response(
            status,
            (match parsed {
                Some(user) => Some(user@),
                None => None,
            }),
        ),
{
    if !is_success_status(status) {
        BackendOutcome::BadStatus(status)
    } else {
        match parsed {
            Some(user) => BackendOutcome::Success(user),
            None => BackendOutcome::MalformedResponse,
        }
    }
}

/// Translates one backend outcome into the one reply to emit.
pub fn bridge(outcome: BackendOutcome) -> (r: Reply)
    ensures
        r@ == spec_bridge(outcome@),
{
    match outcome {
        BackendOutcome::Success(user) => Reply::UserData(user),
        BackendOutcome::BadStatus(code) => Reply::RequestError(status_message(code)),
        BackendOutcome::MalformedResponse => Reply::RequestError(
            String::from_str("Failed to parse the backend JSON response."),
        ),
        BackendOutcome::TransportFailure => Reply::RequestError(
            String::from_str("Could not reach the backend service."),
        ),
    }
}

/// Whether `sub` occurs contiguously somewhere in `m`.
pub open spec fn has_substring(m: Seq<char>, sub: Seq<char>) -> bool {
    exists|i: int| 0 <= i && i + sub.len() <= m.len() && #[trigger] m.subrange(i, i + sub.len() as int) == sub
}

/// Law: a successful lookup is reported as exactly one `user_data` reply
/// whose fields equal the backend's, and no `request_error` is produced for
/// that call.
pub proof fn lemma_success_yields_user_data(user: UserModel)
    ensures
        spec_bridge(OutcomeModel::Success(user)) == ReplyModel::UserData(user),
        !(spec_bridge(OutcomeModel::Success(user)) is RequestError),
{
}

/// Law: a backend rejection is reported as exactly one `request_error` whose
/// message contains the decimal status code, and no `user_data` is produced
/// for that call.
pub proof fn lemma_bad_status_yields_request_error(code: u16)
    requires
        300 <= code <= 599,
    ensures
        spec_bridge(OutcomeModel::BadStatus(code)) matches ReplyModel::RequestError(m)
            && has_substring(m, spec_decimal(code as nat)),
        !(spec_bridge(OutcomeModel::BadStatus(code)) is UserData),
{
    let m = spec_status_message(code);
    let d = spec_decimal(code as nat);
    reveal_strlit("Backend error: ");
    assert(m.subrange(15, 15 + d.len() as int) =~= d);
}

/// Law: an unreachable backend is reported as exactly one `request_error`
/// carrying the fixed unreachable-service message, and no `user_data`.
pub proof fn lemma_transport_failure_yields_fixed_message()
    ensures
        spec_bridge(OutcomeModel::TransportFailure) == ReplyModel::RequestError(
            unreachable_message(),
        ),
        !(spec_bridge(OutcomeModel::TransportFailure) is UserData),
{
}

/// Law: a body that did not decode is reported as exactly one
/// `request_error` carrying the fixed parse-failure message, and no
/// `user_data`.
pub proof fn lemma_malformed_yields_fixed_message()
    ensures
        spec_bridge(OutcomeModel::MalformedResponse) == ReplyModel::RequestError(
            parse_failure_message(),
        ),
        !(spec_bridge(OutcomeModel::MalformedResponse) is UserData),
{
}

/// Law: bridging is a pure function of the backend outcome, so issuing the
/// same request twice against an unchanged backend yields two identically
/// shaped replies.
pub proof fn lemma_bridge_deterministic(first: OutcomeModel, second: OutcomeModel)
    requires
        first == second,
    ensures
        spec_bridge(first) == spec_bridge(second),
{
}

} // verus!
