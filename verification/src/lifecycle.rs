//! The reply protocol. The platform wants an answer to an event within a few
//! seconds. A quick handler answers at once. A slow one acknowledges the event
//! at once, does its work, and sends the result as a message of its own, for
//! which the platform leaves minutes. A failure is told to the user: before
//! the acknowledgment as the answer itself, after it as a message of its own;
//! if that cannot be delivered, once more by an edit; then nothing more is
//! tried.
//!
//! The run of a handler is a state that says which call it awaits. Whoever
//! makes the calls hands back how each ended and is told the next one.

use vstd::prelude::*;
use crate::error::Error;
use crate::models::reply::{Followup, ResponsePattern};

verus! {

/// A call to the platform that tells the user about a failure.
#[derive(Debug, Clone, Copy, PartialEq, Eq, Structural)]
pub enum Attempt {
    /// Answer the event with the message.
    CreateResponse,
    /// Send the message after the acknowledgment, as a message of its own.
    CreateFollowup,
    /// Put the message in place of the answer that the event already has.
    EditResponse,
}

/// How the run of a handler ended.
#[derive(Debug, Clone, Copy, PartialEq, Eq, Structural)]
pub enum Outcome {
    /// The event is of a kind that is never answered.
    NotOwed,
    /// Everything that the handler had to send was delivered.
    Completed,
    /// A failure was told to the user, by this call.
    Reported(Attempt),
    /// A failure could not be told to the user; nothing more is tried.
    GivenUp,
}

/// What is to be done next.
#[derive(Debug, Clone, Copy, PartialEq, Eq, Structural)]
pub enum Action {
    /// Acknowledge the event.
    Defer,
    /// Do the handler's work and say what came of it.
    Work,
    /// Answer the event with what the handler has to say.
    Respond,
    /// Send the handler's message of this number after the acknowledgment.
    FollowUp(usize),
    /// Tell the user about the failure, by this call.
    Report(Attempt),
    /// Nothing: the run is over.
    Stop,
}

/// Where the run of a handler stands.
#[derive(Debug, Clone, Copy, PartialEq, Eq, Structural)]
pub enum Run {
    /// The acknowledgment is awaited.
    Deferring,
    /// The event is acknowledged and the handler's work is awaited.
    Working,
    /// The delivery of the answer is awaited.
    Responding,
    /// The delivery of message `next` of `total` is awaited; `failed` says
    /// whether a failure is to be told after the last of them.
    FollowingUp { next: usize, total: usize, failed: bool },
    /// The delivery of the failure's message by this call is awaited.
    Reporting(Attempt),
    /// The run is over.
    Finished(Outcome),
}

/// How a run begins: a quick handler answers, a slow one acknowledges.
pub open spec fn start_of(pattern: ResponsePattern) -> Run {
    match pattern {
        ResponsePattern::Immediate => Run::Responding,
        ResponsePattern::Deferred => Run::Deferring,
    }
}

/// How the telling of a failure begins: as a message of its own if the event
/// is acknowledged, as the answer to the event if it is not.
pub open spec fn failure_report(acknowledged: bool) -> Run {
    if acknowledged {
        Run::Reporting(Attempt::CreateFollowup)
    } else {
        Run::Reporting(Attempt::CreateResponse)
    }
}

/// Whether the event is acknowledged at this point of the run, as far as the
/// run shows it.
pub open spec fn is_acknowledged(run: Run) -> bool {
    match run {
        Run::Working => true,
        Run::FollowingUp { .. } => true,
        Run::Reporting(Attempt::CreateFollowup) => true,
        _ => false,
    }
}

/// The call that the run awaits.
pub open spec fn action_of(run: Run) -> Action {
    match run {
        Run::Deferring => Action::Defer,
        Run::Working => Action::Work,
        Run::Responding => Action::Respond,
        Run::FollowingUp { next, total, failed } => if next < total {
            Action::FollowUp(next)
        } else {
            Action::Stop
        },
        Run::Reporting(attempt) => Action::Report(attempt),
        Run::Finished(_) => Action::Stop,
    }
}

/// Where the run stands once the awaited call to the platform has
/// `delivered` or failed. A run that awaits no such call stays as it is.
pub open spec fn after_sent(run: Run, delivered: bool) -> Run {
    match run {
        Run::Deferring => if delivered {
            Run::Working
        } else {
            failure_report(false)
        },
        Run::Responding => if delivered {
            Run::Finished(Outcome::Completed)
        } else {
            failure_report(false)
        },
        Run::FollowingUp { next, total, failed } => if next >= total {
            run
        } else if !delivered {
            failure_report(true)
        } else if next + 1 < total {
            Run::FollowingUp { next: (next + 1) as usize, total, failed }
        } else if failed {
            failure_report(true)
        } else {
            Run::Finished(Outcome::Completed)
        },
        Run::Reporting(Attempt::EditResponse) => if delivered {
            Run::Finished(Outcome::Reported(Attempt::EditResponse))
        } else {
            Run::Finished(Outcome::GivenUp)
        },
        Run::Reporting(attempt) => if delivered {
            Run::Finished(Outcome::Reported(attempt))
        } else {
            Run::Reporting(Attempt::EditResponse)
        },
        Run::Working => run,
        Run::Finished(_) => run,
    }
}

/// Where the run stands once the handler's work has given `messages`
/// messages to send and, if `failed`, a failure to tell after them. Work that
/// failed outright gives no message and a failure. A run that awaits no work
/// stays as it is.
pub open spec fn after_work(run: Run, messages: usize, failed: bool) -> Run {
    match run {
        Run::Working => if messages > 0 {
            Run::FollowingUp { next: 0, total: messages, failed }
        } else if failed {
            failure_report(true)
        } else {
            Run::Finished(Outcome::Completed)
        },
        _ => run,
    }
}

impl Run {
    /// Begins the run of a handler that answers in the given way.
    pub fn start(pattern: ResponsePattern) -> (run: Run)
        ensures
            run == start_of(pattern),
    {
        match pattern {
            ResponsePattern::Immediate => Run::Responding,
            ResponsePattern::Deferred => Run::Deferring,
        }
    }

    /// Begins to tell the user about a failure.
    pub fn report(acknowledged: bool) -> (run: Run)
        ensures
            run == failure_report(acknowledged),
    {
        if acknowledged {
            Run::Reporting(Attempt::CreateFollowup)
        } else {
            Run::Reporting(Attempt::CreateResponse)
        }
    }

    /// Whether the event is acknowledged at this point of the run.
    pub fn acknowledged(&self) -> (acknowledged: bool)
        ensures
            acknowledged == is_acknowledged(*self),
    {
        match self {
            Run::Working => true,
            Run::FollowingUp { .. } => true,
            Run::Reporting(Attempt::CreateFollowup) => true,
            _ => false,
        }
    }

    /// What is to be done next.
    pub fn action(&self) -> (action: Action)
        ensures
            action == action_of(*self),
    {
        match self {
            Run::Deferring => Action::Defer,
            Run::Working => Action::Work,
            Run::Responding => Action::Respond,
            Run::FollowingUp { next, total, failed: _ } => if *next < *total {
                Action::FollowUp(*next)
            } else {
                Action::Stop
            },
            Run::Reporting(attempt) => Action::Report(*attempt),
            Run::Finished(_) => Action::Stop,
        }
    }

    /// Takes the result of the awaited call to the platform.
    pub fn sent(self, delivered: bool) -> (next: Run)
        ensures
            next == after_sent(self, delivered),
    {
        match self {
            Run::Deferring => if delivered {
                Run::Working
            } else {
                Run::report(false)
            },
            Run::Responding => if delivered {
                Run::Finished(Outcome::Completed)
            } else {
                Run::report(false)
            },
            Run::FollowingUp { next, total, failed } => if next >= total {
                self
            } else if !delivered {
                Run::report(true)
            } else if next + 1 < total {
                Run::FollowingUp { next: next + 1, total, failed }
            } else if failed {
                Run::report(true)
            } else {
                Run::Finished(Outcome::Completed)
            },
            Run::Reporting(Attempt::EditResponse) => if delivered {
                Run::Finished(Outcome::Reported(Attempt::EditResponse))
            } else {
                Run::Finished(Outcome::GivenUp)
            },
            Run::Reporting(attempt) => if delivered {
                Run::Finished(Outcome::Reported(attempt))
            } else {
                Run::Reporting(Attempt::EditResponse)
            },
            Run::Working => self,
            Run::Finished(_) => self,
        }
    }

    /// Takes what came of the handler's work: the number of messages to send
    /// and whether a failure is to be told after them.
    pub fn worked(self, messages: usize, failed: bool) -> (next: Run)
        ensures
            next == after_work(self, messages, failed),
    {
        match self {
            Run::Working => if messages > 0 {
                Run::FollowingUp { next: 0, total: messages, failed }
            } else if failed {
                Run::report(true)
            } else {
                Run::Finished(Outcome::Completed)
            },
            _ => self,
        }
    }
}

/// What came of a handler's work: the messages to send, in order, and a
/// failure to tell after them, if there is one.
#[derive(Debug, Clone, PartialEq, Eq)]
pub struct Worked {
    pub messages: Vec<Followup>,
    pub failure: Option<Error>,
}

impl Worked {
    /// Work that gives one message and no failure.
    pub fn message(message: Followup) -> (worked: Worked)
        ensures
            worked.messages@ == seq![message],
            worked.failure is None,
    {
        let mut messages: Vec<Followup> = Vec::new();
        messages.push(message);
        Worked { messages, failure: None }
    }

    /// Work that gives no message and tells a failure.
    pub fn failed(error: Error) -> (worked: Worked)
        ensures
            worked.messages@.len() == 0,
            worked.failure == Some(error),
    {
        Worked { messages: Vec::new(), failure: Some(error) }
    }
}

/// Takes what came of the handler's work, or the failure that it ended in,
/// and gives the run as it stands then, the messages to send and the failure
/// to tell. Work that failed outright sends nothing and tells its failure.
pub fn take_work(run: Run, work: Result<Worked, Error>) -> (taken: (Run, Worked))
    ensures
        match work {
            Ok(worked) => taken.1 == worked && taken.0 == after_work(
                run,
                worked.messages@.len() as usize,
                worked.failure is Some,
            ),
            Err(error) => taken.1.messages@.len() == 0 && taken.1.failure == Some(error)
                && taken.0 == after_work(run, 0, true),
        },
{
    match work {
        Ok(worked) => {
            let failed = worked.failure.is_some();
            (run.worked(worked.messages.len(), failed), worked)
        },
        Err(error) => (run.worked(0, true), Worked::failed(error)),
    }
}

/// The run of a slow handler whose calls to the platform all deliver: the
/// event is acknowledged, the work is done, and then exactly one message goes
/// out after the acknowledgment, with the handler's result if the work
/// succeeded and with the failure if it did not; then the run is over.
pub proof fn lemma_deferred_run_follows_up_once(works: bool)
    ensures
        ({
            let begun = start_of(ResponsePattern::Deferred);
            let acknowledged = after_sent(begun, true);
            let planned = if works {
                after_work(acknowledged, 1, false)
            } else {
                after_work(acknowledged, 0, true)
            };
            let ended = after_sent(planned, true);
            &&& action_of(begun) == Action::Defer
            &&& action_of(acknowledged) == Action::Work
            &&& action_of(planned) == (if works {
                Action::FollowUp(0)
            } else {
                Action::Report(Attempt::CreateFollowup)
            })
            &&& ended == Run::Finished(
                if works {
                    Outcome::Completed
                } else {
                    Outcome::Reported(Attempt::CreateFollowup)
                },
            )
            &&& action_of(ended) == Action::Stop
        }),
{
}

/// The telling of a failure, run against calls that would give `first` and
/// `edited`: after an acknowledgment the message is sent as a message of its
/// own, before one as the answer; only if that fails it is sent once more, by
/// an edit; the message is delivered at most once, at most two calls are made,
/// and a run that is over stays over.
pub proof fn lemma_report_ends(acknowledged: bool, first: bool, edited: bool)
    ensures
        ({
            let begun = failure_report(acknowledged);
            let second = after_sent(begun, first);
            let third = after_sent(second, edited);
            let opening = if acknowledged {
                Attempt::CreateFollowup
            } else {
                Attempt::CreateResponse
            };
            &&& action_of(begun) == Action::Report(opening)
            &&& first ==> second == Run::Finished(Outcome::Reported(opening))
            &&& !first ==> action_of(second) == Action::Report(Attempt::EditResponse)
            &&& third == Run::Finished(
                if first {
                    Outcome::Reported(opening)
                } else if edited {
                    Outcome::Reported(Attempt::EditResponse)
                } else {
                    Outcome::GivenUp
                },
            )
            &&& forall|delivered: bool| after_sent(third, delivered) == third
            &&& forall|messages: usize, failed: bool| after_work(third, messages, failed) == third
        }),
{
}

/// The number of calls to the platform that a run may still make, at most,
/// while it awaits no work.
pub open spec fn calls_left(run: Run) -> nat {
    match run {
        Run::Deferring => 3,
        Run::Working => 0,
        Run::Responding => 3,
        Run::FollowingUp { next, total, failed } => if next < total {
            (total - next + 2) as nat
        } else {
            0
        },
        Run::Reporting(Attempt::EditResponse) => 1,
        Run::Reporting(_) => 2,
        Run::Finished(_) => 0,
    }
}

/// Every result of a call brings the run nearer to its end: a run that awaits
/// a call to the platform has fewer calls left after it.
pub proof fn lemma_run_advances(run: Run, delivered: bool)
    requires
        action_of(run) != Action::Stop,
        action_of(run) != Action::Work,
    ensures
        calls_left(after_sent(run, delivered)) < calls_left(run),
{
}

} // verus!
