//! The webhook endpoint. A request is authenticated before its body is read;
//! a liveness check is answered at once; every other event is accepted at
//! once and handled afterwards, and whatever goes wrong afterwards is told to
//! the user, never to the caller of the endpoint.

use vstd::prelude::*;
use vstd::string::StringExecFns;
use crate::error::Error;
use crate::handlers::commands::{registered_command, CommandKind};
use crate::handlers::modals::{registered_modal, ModalKind};
use crate::lifecycle::{failure_report, Outcome, Run};
use crate::models::custom_id::decoded;
use crate::models::interaction::Interaction;
use crate::signature::{body_bytes, request_verdict, HeaderValue, SignatureVerifier};

verus! {

/// What the endpoint answers to a request.
#[derive(Debug, Clone, Copy, PartialEq, Eq, Structural)]
pub enum Reply {
    /// The request is not authentic.
    Unauthorized,
    /// The body is no event.
    BadRequest,
    /// The answer to a liveness check.
    Pong,
    /// The event is taken; it is handled after the answer.
    Accepted,
}

impl Reply {
    /// The status that the answer is sent with.
    pub open spec fn status_code(self) -> u16 {
        match self {
            Reply::Unauthorized => 401,
            Reply::BadRequest => 400,
            Reply::Pong => 200,
            Reply::Accepted => 202,
        }
    }

    /// The status that the answer is sent with.
    pub fn status(&self) -> (code: u16)
        ensures
            code == self.status_code(),
    {
        match self {
            Reply::Unauthorized => 401,
            Reply::BadRequest => 400,
            Reply::Pong => 200,
            Reply::Accepted => 202,
        }
    }

    /// The text that the answer carries, apart from the answer to a liveness
    /// check, whose body is the platform's own.
    pub fn text(&self) -> (text: &'static str)
        ensures
            text@ == (match *self {
                Reply::Unauthorized => "failed to verify signature"@,
                Reply::BadRequest => "failed to parse json"@,
                Reply::Pong => ""@,
                Reply::Accepted => ""@,
            }),
    {
        match self {
            Reply::Unauthorized => "failed to verify signature",
            Reply::BadRequest => "failed to parse json",
            Reply::Pong => "",
            Reply::Accepted => "",
        }
    }
}

/// What the endpoint does with a request that it has not read yet.
#[derive(Debug, Clone, Copy, PartialEq, Eq, Structural)]
pub enum Admission {
    /// Answer with this and read nothing.
    Refuse(Reply),
    /// The request is authentic: read the event out of its body.
    Read,
}

/// What is done with a request: it is read if its signature is one of its
/// timestamp and body under the key, and refused as unauthorized if not.
pub open spec fn admission_of(
    public_key: Seq<u8>,
    signature: HeaderValue,
    timestamp: HeaderValue,
    body: Option<Seq<u8>>,
) -> Admission {
    if request_verdict(public_key, signature, timestamp, body) is Ok {
        Admission::Read
    } else {
        Admission::Refuse(Reply::Unauthorized)
    }
}

/// Authenticates a request from its two headers and the bytes of its body,
/// `None` where the body could not be read. No event is read out of the body
/// unless this says so.
pub fn authenticate(
    verifier: &SignatureVerifier,
    signature: &HeaderValue,
    timestamp: &HeaderValue,
    body: Option<&[u8]>,
) -> (admission: Admission)
    ensures
        admission == admission_of(verifier.key(), *signature, *timestamp, body_bytes(body)),
{
    match verifier.verify_request(signature, timestamp, body) {
        Ok(_) => Admission::Read,
        Err(_) => Admission::Refuse(Reply::Unauthorized),
    }
}

/// What the endpoint answers, and whether the event is handed on to be
/// handled after the answer. A request that is refused gets the refusal and
/// nothing of it is handed on, whatever its body holds. Of an authentic
/// request, a body that is no event is a bad request, a liveness check is
/// answered with a pong, and every other event is accepted and handed on.
pub open spec fn answer_to(admission: Admission, event: Option<Interaction>) -> (Reply, bool) {
    match admission {
        Admission::Refuse(reply) => (reply, false),
        Admission::Read => match event {
            None => (Reply::BadRequest, false),
            Some(Interaction::Ping) => (Reply::Pong, false),
            Some(_) => (Reply::Accepted, true),
        },
    }
}

/// Answers a request from what authenticating it gave and, for an authentic
/// one, from what reading its body gave: `None` if the body is no event. The
/// second part is the event to handle after the answer is sent, if there is
/// one.
pub fn post(admission: Admission, event: Option<Interaction>) -> (answer: (
    Reply,
    Option<Interaction>,
))
    ensures
        answer.0 == answer_to(admission, event).0,
        answer.1 is Some <==> answer_to(admission, event).1,
        answer.1 is Some ==> answer.1 == event,
{
    match admission {
        Admission::Refuse(reply) => (reply, None),
        Admission::Read => match event {
            None => (Reply::BadRequest, None),
            Some(Interaction::Ping) => (Reply::Pong, None),
            Some(other) => (Reply::Accepted, Some(other)),
        },
    }
}

/// The handler that an accepted event goes to.
#[derive(Debug, Clone, Copy, PartialEq, Eq, Structural)]
pub enum Route {
    /// The handler of a command.
    Command(CommandKind),
    /// The handler of a form.
    Modal(ModalKind),
    /// No handler: the event asks for no reply.
    Ignored,
}

/// Whether `routed` is where the event goes: a command to the handler
/// registered under its name, a form to the handler registered under the name
/// in its correlation identifier, every other event nowhere. A name that no
/// handler is registered under, or an identifier that cannot be read, is a
/// failure.
pub open spec fn is_route_of(interaction: Interaction, routed: Result<Route, Error>) -> bool {
    match interaction {
        Interaction::Command(command) => match registered_command(command.name@) {
            Some(kind) => routed == Ok::<Route, Error>(Route::Command(kind)),
            None => routed == Err::<Route, Error>(Error::UnknownCommand(command.name)),
        },
        Interaction::Modal(modal) => match decoded(modal.custom_id@) {
            Err(error) => routed == Err::<Route, Error>(Error::CustomId(error)),
            Ok(read) => match registered_modal(read.id) {
                Some(kind) => routed == Ok::<Route, Error>(Route::Modal(kind)),
                None => routed matches Err(Error::UnknownModal(id)) && id@ == read.id,
            },
        },
        _ => routed == Ok::<Route, Error>(Route::Ignored),
    }
}

/// Routes an accepted event.
pub fn handle_interaction(interaction: &Interaction) -> (routed: Result<Route, Error>)
    ensures
        is_route_of(*interaction, routed),
{
    match interaction {
        Interaction::Command(command) => match crate::handlers::commands::handle_interaction(
            command,
        ) {
            Ok(kind) => Ok(Route::Command(kind)),
            Err(error) => Err(error),
        },
        Interaction::Modal(modal) => match crate::handlers::modals::handle_interaction(modal) {
            Ok(kind) => Ok(Route::Modal(kind)),
            Err(error) => Err(error),
        },
        _ => Ok(Route::Ignored),
    }
}

/// What the user is told about a failure.
pub open spec fn error_message_text(error: Error) -> Seq<char> {
    "Failed to handle interaction:\n```\n"@ + error.message_text() + "\n```"@
}

/// What the user is told about a failure.
pub fn error_message(error: &Error) -> (text: String)
    ensures
        text@ == error_message_text(*error),
{
    let mut text = "Failed to handle interaction:\n```\n".to_owned();
    text.append(error.message().as_str());
    text.append("\n```");
    text
}

/// Whether a failure to handle this event is told to the user.
pub open spec fn owes_report(interaction: Interaction) -> bool {
    interaction is Command || interaction is Component || interaction is Modal
}

/// Begins to tell the user about a failure to handle the event. If the event
/// is `acknowledged` already, the message goes out as a message of its own;
/// if not, as the answer to the event. An event of a kind that is never
/// answered is told nothing.
pub fn handle_interaction_error(interaction: &Interaction, acknowledged: bool) -> (report: Run)
    ensures
        report == (if owes_report(*interaction) {
            failure_report(acknowledged)
        } else {
            Run::Finished(Outcome::NotOwed)
        }),
{
    match interaction {
        Interaction::Command(_) => Run::report(acknowledged),
        Interaction::Component => Run::report(acknowledged),
        Interaction::Modal(_) => Run::report(acknowledged),
        _ => Run::Finished(Outcome::NotOwed),
    }
}

/// A liveness check in an authentic request is answered with a pong and
/// never handed to a handler, whatever handlers there are.
pub proof fn lemma_ping_is_answered_at_once()
    ensures
        answer_to(Admission::Read, Some(Interaction::Ping)) == (Reply::Pong, false),
{
}

/// A request that is not authentic is answered with the refusal, status 401,
/// and nothing of it is handed on, whatever its body holds.
pub proof fn lemma_unauthentic_is_refused(
    public_key: Seq<u8>,
    signature: HeaderValue,
    timestamp: HeaderValue,
    body: Option<Seq<u8>>,
    event: Option<Interaction>,
)
    requires
        request_verdict(public_key, signature, timestamp, body) is Err,
    ensures
        answer_to(admission_of(public_key, signature, timestamp, body), event) == (
            Reply::Unauthorized,
            false,
        ),
        Reply::Unauthorized.status_code() == 401,
{
}

/// A command under a name that no handler is registered under fails to be
/// routed, with that name, and the failure is told to the user in words.
pub proof fn lemma_unknown_command_is_told(
    command: crate::models::interaction::CommandInteraction,
    routed: Result<Route, Error>,
)
    requires
        registered_command(command.name@) is None,
        is_route_of(Interaction::Command(command), routed),
    ensures
        routed == Err::<Route, Error>(Error::UnknownCommand(command.name)),
        owes_report(Interaction::Command(command)),
        error_message_text(routed->Err_0) == "Failed to handle interaction:\n```\n"@
            + "Command with name '"@ + command.name@ + "' not found"@ + "\n```"@,
{
    assert(error_message_text(routed->Err_0) =~= "Failed to handle interaction:\n```\n"@
        + "Command with name '"@ + command.name@ + "' not found"@ + "\n```"@);
}

} // verus!
