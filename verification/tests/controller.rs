use nmstate::ControllerPhase;
use nmstate::ErrorKind;
use nmstate::RetryController;

#[test]
fn verify_retries_then_ignores_residual_vf() {
    let mut c = RetryController::new(3, 0);
    c.start();
    assert_eq!(c.phase(), ControllerPhase::Applying);
    c.apply_succeeded();
    assert_eq!(c.phase(), ControllerPhase::Verifying);
    assert!(c.verify_failed(ErrorKind::VerificationError, "mismatch 1".to_string()).is_none());
    assert_eq!(c.phase(), ControllerPhase::Retrying);
    c.resume();
    c.apply_succeeded();
    assert!(c.verify_failed(ErrorKind::VerificationError, "mismatch 2".to_string()).is_none());
    c.resume();
    c.apply_succeeded();
    assert_eq!(c.attempt(), 3);
    let warning =
        c.verify_failed(ErrorKind::SrIovVfNotFound, "vf 3 missing".to_string()).unwrap();
    assert_eq!(c.phase(), ControllerPhase::SucceededIgnored);
    assert_eq!(warning.kind(), ErrorKind::SrIovVfNotFound);
    assert_eq!(warning.error_count(), 3);
    assert_eq!(warning.msg(), "vf 3 missing");
    assert_eq!(
        warning.secondary_messages(),
        &vec![
            "mismatch 1".to_string(),
            "mismatch 2".to_string(),
            "vf 3 missing".to_string(),
        ]
    );
}

#[test]
fn single_budget_apply_failure_fails() {
    let mut c = RetryController::new(1, 0);
    c.start();
    let d = c.apply_failed(ErrorKind::PluginFailure, "plugin crashed".to_string()).unwrap();
    assert_eq!(c.phase(), ControllerPhase::Failed);
    assert_eq!(d.error_count(), 1);
    assert_eq!(d.kind(), ErrorKind::PluginFailure);
    assert_eq!(d.msg(), "plugin crashed");
    assert!(d.secondary_messages().is_empty());
}

#[test]
fn non_retryable_apply_failure_escalates_at_once() {
    let mut c = RetryController::new(5, 0);
    c.start();
    let d = c.apply_failed(ErrorKind::PermissionError, "denied".to_string()).unwrap();
    assert_eq!(c.phase(), ControllerPhase::Failed);
    assert_eq!(d.error_count(), 1);
    assert_eq!(c.attempt(), 1);
}

#[test]
fn clean_session_succeeds() {
    let mut c = RetryController::new(2, 10);
    assert_eq!(c.phase(), ControllerPhase::Idle);
    assert_eq!(c.max_attempts(), 2);
    assert_eq!(c.retry_delay_ms(), 10);
    c.start();
    c.apply_succeeded();
    c.verify_succeeded();
    assert_eq!(c.phase(), ControllerPhase::Succeeded);
}

#[test]
fn exhausted_retries_report_every_attempt() {
    let mut c = RetryController::new(3, 0);
    c.start();
    assert!(c.apply_failed(ErrorKind::PluginFailure, "crash 1".to_string()).is_none());
    c.resume();
    assert!(c.apply_failed(ErrorKind::PluginFailure, "crash 2".to_string()).is_none());
    c.resume();
    let d = c.apply_failed(ErrorKind::PluginFailure, "crash 3".to_string()).unwrap();
    assert_eq!(c.phase(), ControllerPhase::Failed);
    assert_eq!(d.error_count(), 3);
    assert_eq!(d.msg(), "crash 3");
    assert_eq!(d.secondary_messages().len(), 3);
    let text = d.render();
    assert!(text.contains("crash 1"));
    assert!(text.contains("crash 2"));
    assert!(text.contains("crash 3"));
}

#[test]
fn ignorable_mismatch_before_final_attempt_retries() {
    let mut c = RetryController::new(2, 0);
    c.start();
    c.apply_succeeded();
    assert!(c.verify_failed(ErrorKind::SrIovVfNotFound, "vf missing".to_string()).is_none());
    assert_eq!(c.phase(), ControllerPhase::Retrying);
    assert_eq!(c.attempt(), 2);
}

#[test]
fn non_retryable_mismatch_fails_at_once() {
    let mut c = RetryController::new(4, 0);
    c.start();
    c.apply_succeeded();
    let d = c.verify_failed(ErrorKind::InvalidArgument, "bad state".to_string()).unwrap();
    assert_eq!(c.phase(), ControllerPhase::Failed);
    assert_eq!(d.kind(), ErrorKind::InvalidArgument);
    assert_eq!(d.error_count(), 1);
}
