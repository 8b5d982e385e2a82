use nmstate::ErrorKind;

#[test]
fn classifier_table_all_kinds() {
    let table = [
        (ErrorKind::InvalidArgument, false, false),
        (ErrorKind::PluginFailure, true, false),
        (ErrorKind::Bug, true, false),
        (ErrorKind::VerificationError, true, false),
        (ErrorKind::NotImplementedError, false, false),
        (ErrorKind::NotSupportedError, false, false),
        (ErrorKind::KernelIntegerRoundedError, false, false),
        (ErrorKind::DependencyError, false, false),
        (ErrorKind::PolicyError, false, false),
        (ErrorKind::PermissionError, false, false),
        (ErrorKind::SrIovVfNotFound, true, true),
    ];
    for (kind, retry, ignore) in table {
        assert_eq!(kind.can_retry(), retry);
        assert_eq!(kind.can_ignore(), ignore);
    }
}

#[test]
fn classifier_is_pure_on_repeat_calls() {
    let k = ErrorKind::VerificationError;
    assert_eq!(k.can_retry(), k.can_retry());
    assert_eq!(k.can_ignore(), k.can_ignore());
    assert!(k.can_retry());
    assert!(!k.can_ignore());
}

#[test]
fn permission_error_is_not_retryable() {
    assert!(!ErrorKind::PermissionError.can_retry());
}

#[test]
fn default_kind_is_bug() {
    assert_eq!(ErrorKind::default(), ErrorKind::Bug);
}
