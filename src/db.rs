//! The decisions of a middleware that runs each request inside one database
//! transaction.
//!
//! Per request, the transaction is begun before the handler runs, and once
//! the handler has ended it is committed or rolled back, at most once. The
//! host application begins the transaction of a new request
//! ([`TxnState::new`]), then performs each [`TxnAction`] (run the handler,
//! commit, roll back, respond) and reports how the last step went as a
//! [`TxnEvent`]; [`TxnState::step`] decides what comes next.

use vstd::prelude::*;

verus! {

/// A status code is successful by default when it is neither a client error
/// (400-499) nor a server error (500-599).
pub open spec fn spec_is_success_status(status: u16) -> bool {
    !(400 <= status <= 599)
}

/// Whether a response with this status code lets the transaction commit,
/// unless a custom check decides otherwise.
pub fn is_success_status(status: u16) -> (r: bool)
    ensures
        r == spec_is_success_status(status),
{
    !(400 <= status && status <= 599)
}

/// How the request handler ended.
#[derive(Debug, Clone, Copy, PartialEq, Eq)]
pub enum HandlerOutcome {
    /// The handler produced a response with this status code.
    Responded { status: u16 },
    /// The handler failed before producing a response.
    Failed,
}

/// What becomes of the transaction once the handler has ended.
#[derive(Debug, Clone, Copy, PartialEq, Eq)]
pub enum Finalization {
    /// Commit the transaction.
    Commit,
    /// Roll the transaction back.
    Rollback,
    /// The handler still holds the transaction: report an internal error and
    /// do not commit.
    Retained,
}

/// The finalization of the transaction.
///
/// `handle_unique` tells whether the middleware holds the only handle to the
/// transaction; `custom_verdict` is the verdict of the custom success check
/// on the response, if the middleware has one (it overrides the default
/// check entirely).
pub open spec fn spec_finalization(
    outcome: HandlerOutcome,
    handle_unique: bool,
    custom_verdict: Option<bool>,
) -> Finalization {
    match outcome {
        HandlerOutcome::Failed => Finalization::Rollback,
        HandlerOutcome::Responded { status } => {
            if !handle_unique {
                Finalization::Retained
            } else if match custom_verdict {
                Some(v) => v,
                None => spec_is_success_status(status),
            } {
                Finalization::Commit
            } else {
                Finalization::Rollback
            }
        },
    }
}

/// Decides what becomes of the transaction once the handler has ended; see
/// [`spec_finalization`].
pub fn finalization(outcome: HandlerOutcome, handle_unique: bool, custom_verdict: Option<bool>) -> (r:
    Finalization)
    ensures
        r == spec_finalization(outcome, handle_unique, custom_verdict),
{
    match outcome {
        HandlerOutcome::Failed => Finalization::Rollback,
        HandlerOutcome::Responded { status } => {
            if !handle_unique {
                Finalization::Retained
            } else {
                let success = match custom_verdict {
                    Some(v) => v,
                    None => is_success_status(status),
                };
                if success {
                    Finalization::Commit
                } else {
                    Finalization::Rollback
                }
            }
        },
    }
}

/// What the request is answered with.
#[derive(Debug, Clone, Copy, PartialEq, Eq)]
pub enum Outcome {
    /// The response that the handler produced.
    HandlerResponse,
    /// The error that the handler failed with, unchanged.
    HandlerError,
    /// An internal server error, in place of whatever the handler produced.
    InternalError,
}

/// Where a request stands in its transaction's life.
#[derive(Debug, Clone, Copy, PartialEq, Eq)]
pub enum TxnState {
    /// The transaction is being begun.
    Start,
    /// The transaction is open and the handler runs with it.
    Active,
    /// The transaction is being committed (`committing`) or rolled back; the
    /// request will be answered with `outcome` if that succeeds.
    Finalizing { committing: bool, outcome: Outcome },
    /// The request has been answered with `outcome`; nothing is left to do.
    Done { outcome: Outcome },
}

/// What happened to the last action.
#[derive(Debug, Clone, Copy, PartialEq, Eq)]
pub enum TxnEvent {
    /// The transaction was begun.
    Began,
    /// The transaction could not be begun.
    BeginFailed,
    /// The handler ended; see [`spec_finalization`] for the other fields.
    HandlerEnded { outcome: HandlerOutcome, handle_unique: bool, custom_verdict: Option<bool> },
    /// The commit or rollback succeeded.
    Finished,
    /// The commit or rollback failed.
    FinishFailed,
}

/// What the host application is to do next.
#[derive(Debug, Clone, Copy, PartialEq, Eq)]
pub enum TxnAction {
    /// Run the handler with the transaction attached to the request.
    RunHandler,
    /// Commit the transaction.
    Commit,
    /// Roll the transaction back.
    Rollback,
    /// Answer the request.
    Respond { outcome: Outcome },
}

impl TxnState {
    /// The next state and action after `event`.
    pub open spec fn spec_step(self, event: TxnEvent) -> (TxnState, TxnAction) {
        match (self, event) {
            (TxnState::Start, TxnEvent::Began) => (TxnState::Active, TxnAction::RunHandler),
            (TxnState::Active, TxnEvent::HandlerEnded { outcome, handle_unique, custom_verdict }) => {
                let respond_with = match outcome {
                    HandlerOutcome::Failed => Outcome::HandlerError,
                    HandlerOutcome::Responded { .. } => Outcome::HandlerResponse,
                };
                match spec_finalization(outcome, handle_unique, custom_verdict) {
                    Finalization::Commit => (
                        TxnState::Finalizing { committing: true, outcome: respond_with },
                        TxnAction::Commit,
                    ),
                    Finalization::Rollback => (
                        TxnState::Finalizing { committing: false, outcome: respond_with },
                        TxnAction::Rollback,
                    ),
                    Finalization::Retained => (
                        TxnState::Done { outcome: Outcome::InternalError },
                        TxnAction::Respond { outcome: Outcome::InternalError },
                    ),
                }
            },
            (TxnState::Finalizing { outcome, .. }, TxnEvent::Finished) => (
                TxnState::Done { outcome },
                TxnAction::Respond { outcome },
            ),
            _ => (
                TxnState::Done { outcome: Outcome::InternalError },
                TxnAction::Respond { outcome: Outcome::InternalError },
            ),
        }
    }

    /// The state of a new request, whose transaction is to be begun.
    pub fn new() -> (r: TxnState)
        ensures
            r == TxnState::Start,
    {
        TxnState::Start
    }

    /// Moves on after `event`: returns the next state and the action to
    /// perform. A failure to begin, commit or roll back the transaction, a
    /// handler that still holds it, and an event that cannot follow the last
    /// action, end in an internal error.
    pub fn step(self, event: TxnEvent) -> (r: (TxnState, TxnAction))
        ensures
            r == self.spec_step(event),
    {
        match (self, event) {
            (TxnState::Start, TxnEvent::Began) => (TxnState::Active, TxnAction::RunHandler),
            (TxnState::Active, TxnEvent::HandlerEnded { outcome, handle_unique, custom_verdict }) => {
                let respond_with = match outcome {
                    HandlerOutcome::Failed => Outcome::HandlerError,
                    HandlerOutcome::Responded { .. } => Outcome::HandlerResponse,
                };
                match finalization(outcome, handle_unique, custom_verdict) {
                    Finalization::Commit => (
                        TxnState::Finalizing { committing: true, outcome: respond_with },
                        TxnAction::Commit,
                    ),
                    Finalization::Rollback => (
                        TxnState::Finalizing { committing: false, outcome: respond_with },
                        TxnAction::Rollback,
                    ),
                    Finalization::Retained => (
                        TxnState::Done { outcome: Outcome::InternalError },
                        TxnAction::Respond { outcome: Outcome::InternalError },
                    ),
                }
            },
            (TxnState::Finalizing { outcome, .. }, TxnEvent::Finished) => (
                TxnState::Done { outcome },
                TxnAction::Respond { outcome },
            ),
            _ => (
                TxnState::Done { outcome: Outcome::InternalError },
                TxnAction::Respond { outcome: Outcome::InternalError },
            ),
        }
    }
}

/// The number of commits and rollbacks in the run from `s` through
/// `events`.
pub open spec fn finalizations_in_run(s: TxnState, events: Seq<TxnEvent>) -> nat
    decreases events.len(),
{
    if events.len() == 0 {
        0
    } else {
        let (next, action) = s.spec_step(events[0]);
        (if action is Commit || action is Rollback {
            1nat
        } else {
            0nat
        }) + finalizations_in_run(next, events.skip(1))
    }
}

/// A handler that responds, alone with the transaction, gets it committed
/// exactly when the response is a success: by the custom check if there is
/// one, else by its status; otherwise it is rolled back.
pub proof fn lemma_success_commits(status: u16, custom_verdict: Option<bool>)
    ensures
        ({
            let event = TxnEvent::HandlerEnded {
                outcome: HandlerOutcome::Responded { status },
                handle_unique: true,
                custom_verdict,
            };
            let success = match custom_verdict {
                Some(v) => v,
                None => spec_is_success_status(status),
            };
            &&& TxnState::Active.spec_step(event).1 == if success {
                TxnAction::Commit
            } else {
                TxnAction::Rollback
            }
        }),
{
}

/// A handler that fails gets the transaction rolled back, and once the
/// rollback is done the request is answered with the handler's error.
pub proof fn lemma_failed_handler_rolls_back(handle_unique: bool, custom_verdict: Option<bool>)
    ensures
        ({
            let event = TxnEvent::HandlerEnded {
                outcome: HandlerOutcome::Failed,
                handle_unique,
                custom_verdict,
            };
            let (next, action) = TxnState::Active.spec_step(event);
            &&& action == TxnAction::Rollback
            &&& next.spec_step(TxnEvent::Finished).1 == TxnAction::Respond {
                outcome: Outcome::HandlerError,
            }
        }),
{
}

/// A handler that responds but still holds the transaction gets an internal
/// error, and the transaction is never committed.
pub proof fn lemma_retained_handle_is_internal_error(
    status: u16,
    custom_verdict: Option<bool>,
    later: Seq<TxnEvent>,
)
    ensures
        ({
            let event = TxnEvent::HandlerEnded {
                outcome: HandlerOutcome::Responded { status },
                handle_unique: false,
                custom_verdict,
            };
            let (next, action) = TxnState::Active.spec_step(event);
            &&& action == TxnAction::Respond { outcome: Outcome::InternalError }
            &&& finalizations_in_run(next, later) == 0
        }),
{
    lemma_finalizations_bound(TxnState::Done { outcome: Outcome::InternalError }, later);
}

/// From a state after the handler has ended, no further commit or rollback
/// happens beyond the one in progress; before it, at most one happens.
proof fn lemma_finalizations_bound(s: TxnState, events: Seq<TxnEvent>)
    ensures
        s is Finalizing || s is Done ==> finalizations_in_run(s, events) == 0,
        finalizations_in_run(s, events) <= 1,
    decreases events.len(),
{
    if events.len() > 0 {
        let (next, action) = s.spec_step(events[0]);
        lemma_finalizations_bound(next, events.skip(1));
    }
}

/// Whatever happens, a request's transaction is committed or rolled back at
/// most once.
pub proof fn lemma_finalized_at_most_once(events: Seq<TxnEvent>)
    ensures
        finalizations_in_run(TxnState::Start, events) <= 1,
{
    lemma_finalizations_bound(TxnState::Start, events);
}

} // verus!
