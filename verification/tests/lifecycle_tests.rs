use yawsf::session_lock::{LockDecision, SessionLock};
use yawsf::startup::{StartupAction, StartupEvent, StartupRetry, STARTUP_ATTEMPTS, STARTUP_RETRY_DELAY_MS};
use yawsf::webapp::{
    process_group_target, split_command, Termination, TerminationAction, WebappError,
    TERMINATE_GRACE_SECS,
};
use yawsf::SessionLockState;

#[test]
fn lock_is_pending_until_the_compositor_confirms() {
    let mut lock = SessionLock::new();
    assert_eq!(lock.state(), SessionLockState::Unlocked);
    assert_eq!(lock.surface_url(), None);
    let decision = lock.request_lock(true, false, "http://h/lock".to_string());
    assert_eq!(decision, LockDecision::Requested);
    assert_eq!(lock.state(), SessionLockState::Pending);
    assert_eq!(lock.surface_url(), Some("http://h/lock".to_string()));
    lock.locked();
    assert_eq!(lock.state(), SessionLockState::Locked);
    assert_eq!(lock.surface_url(), Some("http://h/lock".to_string()));
    assert!(lock.request_unlock(true));
    assert_eq!(lock.state(), SessionLockState::Locked);
    lock.unlocked();
    assert_eq!(lock.state(), SessionLockState::Unlocked);
    assert_eq!(lock.surface_url(), None);
}

#[test]
fn lock_without_compositor_support_fails() {
    let mut lock = SessionLock::new();
    assert_eq!(lock.request_lock(false, false, "http://h/".to_string()), LockDecision::Unavailable);
    assert_eq!(lock.state(), SessionLockState::Failed);
    assert_eq!(lock.surface_url(), None);
    assert!(!lock.request_unlock(false));
    assert_eq!(lock.state(), SessionLockState::Unlocked);
}

#[test]
fn already_locked_session_reports_locked() {
    let mut lock = SessionLock::new();
    assert_eq!(lock.request_lock(true, true, "http://h/".to_string()), LockDecision::AlreadyLocked);
    assert_eq!(lock.state(), SessionLockState::Locked);
    assert_eq!(lock.surface_url(), None);
}

#[test]
fn refused_or_failed_lock_clears_the_url() {
    let mut lock = SessionLock::new();
    lock.request_lock(true, false, "http://h/".to_string());
    lock.lock_refused();
    assert_eq!(lock.state(), SessionLockState::Failed);
    assert_eq!(lock.surface_url(), None);
    lock.request_lock(true, false, "http://h/".to_string());
    lock.failed();
    assert_eq!(lock.state(), SessionLockState::Failed);
    assert_eq!(lock.surface_url(), None);
}

#[test]
fn startup_gives_up_after_300_attempts() {
    assert_eq!(STARTUP_ATTEMPTS, 300);
    let mut retry = StartupRetry::new();
    let mut waited: u64 = 0;
    for attempt in 1..STARTUP_ATTEMPTS {
        assert_eq!(retry.attempt(), attempt);
        match retry.step(StartupEvent::Rejected) {
            StartupAction::RetryAfterMs(ms) => waited += ms,
            other => panic!("unexpected {other:?}"),
        }
    }
    assert_eq!(retry.attempt(), 300);
    assert_eq!(retry.step(StartupEvent::Rejected), StartupAction::GaveUp);
    assert_eq!(waited, 299 * STARTUP_RETRY_DELAY_MS);
    assert!(waited < 30_000);
}

#[test]
fn startup_stops_on_accept_or_cancel() {
    let mut retry = StartupRetry::new();
    assert_eq!(retry.step(StartupEvent::Rejected), StartupAction::RetryAfterMs(100));
    assert_eq!(retry.step(StartupEvent::Accepted), StartupAction::Started);
    let mut retry = StartupRetry::new();
    assert_eq!(retry.step(StartupEvent::Cancelled), StartupAction::Aborted);
    assert_eq!(retry.attempt(), 1);
}

#[test]
fn command_splits_into_program_and_arguments() {
    let (program, args) =
        split_command(vec!["pnpm".to_string(), "--dir".to_string(), "shell".to_string()]).unwrap();
    assert_eq!(program, "pnpm");
    assert_eq!(args, vec!["--dir".to_string(), "shell".to_string()]);
    let (program, args) = split_command(vec!["node".to_string()]).unwrap();
    assert_eq!(program, "node");
    assert!(args.is_empty());
}

#[test]
fn empty_command_is_refused() {
    let err = split_command(Vec::new()).unwrap_err();
    assert_eq!(err, WebappError::EmptyCommand);
    assert_eq!(err.message(), "webapp command is empty");
}

#[test]
fn signals_go_to_the_process_group() {
    assert_eq!(process_group_target(4242), -4242);
    assert_eq!(process_group_target(1), -1);
}

#[test]
fn exited_child_gets_sigterm_only() {
    let mut t = Termination::new();
    assert_eq!(t.begin(true), TerminationAction::SignalTermAndStop);
}

#[test]
fn running_child_gets_five_seconds_then_sigkill() {
    assert_eq!(TERMINATE_GRACE_SECS, 5);
    let mut t = Termination::new();
    assert_eq!(t.begin(false), TerminationAction::SignalTermAndWait(5));
    assert_eq!(t.grace_over(true), TerminationAction::SignalKillAndReap);
    let mut t = Termination::new();
    assert_eq!(t.begin(false), TerminationAction::SignalTermAndWait(5));
    assert_eq!(t.grace_over(false), TerminationAction::Stop);
}
