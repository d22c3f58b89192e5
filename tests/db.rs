use poem_ext::db::{
    finalization, is_success_status, Finalization, HandlerOutcome, Outcome, TxnAction, TxnEvent,
    TxnState,
};

fn ended(status: Option<u16>, handle_unique: bool, custom_verdict: Option<bool>) -> TxnEvent {
    TxnEvent::HandlerEnded {
        outcome: match status {
            Some(status) => HandlerOutcome::Responded { status },
            None => HandlerOutcome::Failed,
        },
        handle_unique,
        custom_verdict,
    }
}

/// Runs a request through the given events and returns every action taken.
fn run(events: &[TxnEvent]) -> Vec<TxnAction> {
    let mut state = TxnState::new();
    let mut actions = Vec::new();
    for event in events {
        let (next, action) = state.step(*event);
        state = next;
        actions.push(action);
    }
    actions
}

#[test]
fn default_success_statuses() {
    assert!(is_success_status(200));
    assert!(is_success_status(201));
    assert!(is_success_status(304));
    assert!(is_success_status(399));
    assert!(!is_success_status(400));
    assert!(!is_success_status(404));
    assert!(!is_success_status(499));
    assert!(!is_success_status(500));
    assert!(!is_success_status(599));
    assert!(is_success_status(600));
}

#[test]
fn finalization_decisions() {
    let ok = HandlerOutcome::Responded { status: 200 };
    let not_found = HandlerOutcome::Responded { status: 404 };
    assert_eq!(finalization(ok, true, None), Finalization::Commit);
    assert_eq!(finalization(not_found, true, None), Finalization::Rollback);
    assert_eq!(finalization(ok, true, Some(false)), Finalization::Rollback);
    assert_eq!(finalization(not_found, true, Some(true)), Finalization::Commit);
    assert_eq!(finalization(ok, false, None), Finalization::Retained);
    assert_eq!(finalization(ok, false, Some(true)), Finalization::Retained);
    assert_eq!(finalization(HandlerOutcome::Failed, true, Some(true)), Finalization::Rollback);
    assert_eq!(finalization(HandlerOutcome::Failed, false, None), Finalization::Rollback);
}

#[test]
fn successful_response_commits() {
    let actions = run(&[TxnEvent::Began, ended(Some(200), true, None), TxnEvent::Finished]);
    assert_eq!(
        actions,
        vec![
            TxnAction::RunHandler,
            TxnAction::Commit,
            TxnAction::Respond { outcome: Outcome::HandlerResponse },
        ]
    );
}

#[test]
fn error_response_rolls_back() {
    let actions = run(&[TxnEvent::Began, ended(Some(500), true, None), TxnEvent::Finished]);
    assert_eq!(actions[1], TxnAction::Rollback);
    assert_eq!(actions[2], TxnAction::Respond { outcome: Outcome::HandlerResponse });
}

#[test]
fn custom_check_overrides_default() {
    let commit = run(&[TxnEvent::Began, ended(Some(409), true, Some(true))]);
    assert_eq!(commit[1], TxnAction::Commit);
    let rollback = run(&[TxnEvent::Began, ended(Some(201), true, Some(false))]);
    assert_eq!(rollback[1], TxnAction::Rollback);
}

#[test]
fn failed_handler_rolls_back_and_keeps_error() {
    let actions = run(&[TxnEvent::Began, ended(None, true, None), TxnEvent::Finished]);
    assert_eq!(
        actions,
        vec![
            TxnAction::RunHandler,
            TxnAction::Rollback,
            TxnAction::Respond { outcome: Outcome::HandlerError },
        ]
    );
}

#[test]
fn retained_handle_is_internal_error() {
    let actions = run(&[TxnEvent::Began, ended(Some(200), false, None)]);
    assert_eq!(
        actions,
        vec![
            TxnAction::RunHandler,
            TxnAction::Respond { outcome: Outcome::InternalError },
        ]
    );
    let (done, _) = TxnState::Active.step(ended(Some(200), false, None));
    assert_eq!(done, TxnState::Done { outcome: Outcome::InternalError });
    let (_, after) = done.step(TxnEvent::Finished);
    assert_eq!(after, TxnAction::Respond { outcome: Outcome::InternalError });
}

#[test]
fn begin_failure_is_internal_error() {
    let actions = run(&[TxnEvent::BeginFailed]);
    assert_eq!(actions, vec![TxnAction::Respond { outcome: Outcome::InternalError }]);
}

#[test]
fn commit_failure_overrides_response() {
    let actions = run(&[TxnEvent::Began, ended(Some(200), true, None), TxnEvent::FinishFailed]);
    assert_eq!(actions[2], TxnAction::Respond { outcome: Outcome::InternalError });
    let actions = run(&[TxnEvent::Began, ended(None, true, None), TxnEvent::FinishFailed]);
    assert_eq!(actions[2], TxnAction::Respond { outcome: Outcome::InternalError });
}

#[test]
fn events_out_of_order_are_internal_errors() {
    let internal = TxnAction::Respond { outcome: Outcome::InternalError };
    assert_eq!(run(&[TxnEvent::Finished]), vec![internal]);
    assert_eq!(run(&[ended(Some(200), true, None)]), vec![internal]);
    assert_eq!(run(&[TxnEvent::Began, TxnEvent::Began]), vec![TxnAction::RunHandler, internal]);
    let finalizing = TxnState::Finalizing { committing: true, outcome: Outcome::HandlerResponse };
    assert_eq!(finalizing.step(TxnEvent::Began).1, internal);
    assert_eq!(
        finalizing.step(TxnEvent::Finished),
        (
            TxnState::Done { outcome: Outcome::HandlerResponse },
            TxnAction::Respond { outcome: Outcome::HandlerResponse }
        )
    );
}
