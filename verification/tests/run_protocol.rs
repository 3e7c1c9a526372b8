//! Scenario tests driving the run-session protocol with concrete events.

use procrun::error::Operation;
use procrun::error::OperationError;
use procrun::outcome::CONTROL_BREAK_STATUS;
use procrun::outcome::Termination;
use procrun::outcome::classify_exit_status;
use procrun::session::RunAction;
use procrun::session::RunEvent;
use procrun::session::RunSession;

/// Drives one full run: the command launches, the wait completes, and the
/// child reports `status`.  Returns the released handles and the result.
fn completed_run(status: u32) -> (Vec<usize>, Result<Termination, OperationError>) {
    let mut session = RunSession::new();
    assert_eq!(session.next_action(), RunAction::Launch);
    session.advance(RunEvent::LaunchSucceeded { process: 44, thread: 88 });
    assert_eq!(session.next_action(), RunAction::Wait);
    session.advance(RunEvent::WaitSucceeded);
    assert_eq!(session.next_action(), RunAction::ReadStatus);
    session.advance(RunEvent::StatusRetrieved { status });
    assert!(session.is_done());
    assert_eq!(session.next_action(), RunAction::Finish);
    session.finish()
}

#[test]
fn zero_status_is_success() {
    let (handles, result) = completed_run(0);
    assert_eq!(result, Ok(Termination::Success));
    assert_eq!(handles, vec![44, 88]);
}

#[test]
fn control_break_status_is_interrupted() {
    let (handles, result) = completed_run(CONTROL_BREAK_STATUS);
    assert_eq!(result, Ok(Termination::Interrupted));
    assert_eq!(handles, vec![44, 88]);
}

#[test]
fn other_nonzero_status_is_failure() {
    let (handles, result) = completed_run(1);
    assert_eq!(result, Ok(Termination::Failure));
    assert_eq!(handles, vec![44, 88]);
}

#[test]
fn large_status_is_failure() {
    let (_, result) = completed_run(u32::MAX);
    assert_eq!(result, Ok(Termination::Failure));
}

#[test]
fn failed_launch_names_process_create_and_holds_nothing() {
    let mut session = RunSession::new();
    assert_eq!(session.next_action(), RunAction::Launch);
    session.advance(RunEvent::LaunchFailed { code: 2 });
    assert!(session.is_done());
    let (handles, result) = session.finish();
    assert_eq!(
        result,
        Err(OperationError { operation: Operation::ProcessCreate, code: 2 })
    );
    assert_eq!(handles, Vec::<usize>::new());
}

#[test]
fn failed_wait_names_wait_and_releases_both_handles() {
    let mut session = RunSession::new();
    session.advance(RunEvent::LaunchSucceeded { process: 7, thread: 9 });
    session.advance(RunEvent::WaitFailed { code: 6 });
    assert!(session.is_done());
    let (handles, result) = session.finish();
    assert_eq!(result, Err(OperationError { operation: Operation::Wait, code: 6 }));
    assert_eq!(handles, vec![7, 9]);
}

#[test]
fn failed_status_read_names_status_read_and_releases_both_handles() {
    let mut session = RunSession::new();
    session.advance(RunEvent::LaunchSucceeded { process: 5, thread: 10 });
    session.advance(RunEvent::WaitSucceeded);
    session.advance(RunEvent::StatusFailed { code: 87 });
    let (handles, result) = session.finish();
    assert_eq!(
        result,
        Err(OperationError { operation: Operation::StatusRead, code: 87 })
    );
    assert_eq!(handles, vec![5, 10]);
}

#[test]
fn null_handle_fields_are_never_handed_back() {
    let mut session = RunSession::new();
    session.advance(RunEvent::LaunchSucceeded { process: 3, thread: 0 });
    session.advance(RunEvent::WaitSucceeded);
    session.advance(RunEvent::StatusRetrieved { status: 0 });
    let (handles, result) = session.finish();
    assert_eq!(result, Ok(Termination::Success));
    assert_eq!(handles, vec![3]);
}

#[test]
fn each_handle_is_released_exactly_once() {
    let mut session = RunSession::new();
    session.advance(RunEvent::LaunchSucceeded { process: 21, thread: 22 });
    session.advance(RunEvent::WaitSucceeded);
    session.advance(RunEvent::StatusRetrieved { status: 0 });
    let (first, _) = session.finish();
    assert_eq!(first, vec![21, 22]);
    let (second, _) = session.finish();
    assert_eq!(second, Vec::<usize>::new());
}

#[test]
fn classification_covers_the_three_buckets() {
    assert_eq!(classify_exit_status(0), Termination::Success);
    assert_eq!(classify_exit_status(CONTROL_BREAK_STATUS), Termination::Interrupted);
    assert_eq!(classify_exit_status(1), Termination::Failure);
    assert_eq!(classify_exit_status(259), Termination::Failure);
}
