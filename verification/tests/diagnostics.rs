use nmstate::ErrorKind;
use nmstate::NmstateError;

#[test]
fn single_message_counts_once() {
    let d = NmstateError::new(ErrorKind::Bug, "oops".to_string());
    assert_eq!(d.kind(), ErrorKind::Bug);
    assert_eq!(d.msg(), "oops");
    assert_eq!(d.error_count(), 1);
    assert!(d.secondary_messages().is_empty());
    assert_eq!(d.line(), "");
    assert_eq!(d.position(), 0);
}

#[test]
fn counted_construction_keeps_tally() {
    let d = NmstateError::new_with_count(ErrorKind::VerificationError, "m".to_string(), 7);
    assert_eq!(d.error_count(), 7);
    assert!(d.secondary_messages().is_empty());
}

#[test]
fn multiple_messages_count_and_order() {
    let msgs = vec!["a".to_string(), "b".to_string(), "c".to_string()];
    let d =
        NmstateError::new_with_multiple_errors(ErrorKind::PluginFailure, "c".to_string(), msgs.clone());
    assert_eq!(d.error_count(), 3);
    assert_eq!(d.secondary_messages(), &msgs);
}

#[test]
fn policy_construction_keeps_location() {
    let d = NmstateError::new_policy_error("bad rule".to_string(), "capture: x", 9);
    assert_eq!(d.kind(), ErrorKind::PolicyError);
    assert_eq!(d.msg(), "bad rule");
    assert_eq!(d.line(), "capture: x");
    assert_eq!(d.position(), 9);
    assert_eq!(d.error_count(), 1);
}

#[test]
fn policy_layout_exact() {
    let d = NmstateError::new_policy_error("unknown property 'foo'".to_string(), "  foo: 1", 2);
    assert_eq!(
        d.render(),
        "PolicyError: unknown property 'foo'\n|   foo: 1\n| ..^\nError count: 1"
    );
}

#[test]
fn caret_at_position_zero() {
    let d = NmstateError::new_policy_error("bad".to_string(), "x", 0);
    assert_eq!(d.render(), "PolicyError: bad\n| x\n| ^\nError count: 1");
}

#[test]
fn generic_layout_exact() {
    let d = NmstateError::new_with_multiple_errors(
        ErrorKind::VerificationError,
        "mtu mismatch".to_string(),
        vec!["eth0 mtu".to_string(), "eth1 mtu".to_string()],
    );
    assert_eq!(
        d.render(),
        "VerificationError: mtu mismatch\nError count: 2\nErrors: [\"eth0 mtu\", \"eth1 mtu\"]"
    );
}

#[test]
fn generic_layout_empty_list_marker() {
    let d = NmstateError::new(ErrorKind::DependencyError, "missing tool".to_string());
    assert_eq!(d.render(), "DependencyError: missing tool\nError count: 1\nErrors: []");
}

#[test]
fn generic_layout_lists_each_message_in_order() {
    let msgs: Vec<String> = (0..5).map(|i| format!("failure {i}")).collect();
    let d =
        NmstateError::new_with_multiple_errors(ErrorKind::Bug, "failure 4".to_string(), msgs.clone());
    let text = d.render();
    let list = &text[text.find("Errors: ").unwrap() + "Errors: ".len()..];
    let expected = format!(
        "[{}]",
        msgs.iter().map(|m| format!("\"{m}\"")).collect::<Vec<_>>().join(", ")
    );
    assert_eq!(list, expected);
}

#[test]
fn generic_layout_escapes_like_debug() {
    let msgs = vec![
        "say \"hi\"".to_string(),
        "back\\slash".to_string(),
        "line\nbreak\ttab\rret".to_string(),
        "nul\0ctl\u{1}del\u{7f}end".to_string(),
    ];
    let d = NmstateError::new_with_multiple_errors(ErrorKind::Bug, "m".to_string(), msgs.clone());
    let expected = format!("Bug: m\nError count: 4\nErrors: {:?}", msgs);
    assert_eq!(d.render(), expected);
}

#[test]
fn generic_layout_quote_in_message_stays_one_entry() {
    let msgs = vec!["a\", \"b".to_string()];
    let d = NmstateError::new_with_multiple_errors(ErrorKind::Bug, "m".to_string(), msgs.clone());
    assert_eq!(d.render(), "Bug: m\nError count: 1\nErrors: [\"a\\\", \\\"b\"]");
    assert_eq!(d.render(), format!("Bug: m\nError count: 1\nErrors: {:?}", msgs));
}

#[test]
fn multi_digit_count_renders_decimal() {
    let d = NmstateError::new_with_count(ErrorKind::Bug, "m".to_string(), 120);
    assert_eq!(d.render(), "Bug: m\nError count: 120\nErrors: []");
}

#[test]
fn kind_names_are_the_variant_names() {
    assert_eq!(ErrorKind::SrIovVfNotFound.name(), "SrIovVfNotFound");
    assert_eq!(ErrorKind::KernelIntegerRoundedError.name(), "KernelIntegerRoundedError");
    assert_eq!(ErrorKind::PolicyError.name(), "PolicyError");
}
