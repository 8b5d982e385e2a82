use nmstate::ErrorKind;
use nmstate::from_address_description;
use nmstate::from_json_description;
use nmstate::from_json_error;
use nmstate::snapshot_text;

#[test]
fn json_description_adapter_keeps_text() {
    let d = from_json_description("missing field x");
    assert_eq!(d.kind(), ErrorKind::InvalidArgument);
    assert_eq!(d.msg(), "Invalid propriety: missing field x");
    assert!(d.msg().contains("missing field x"));
    assert_eq!(d.error_count(), 1);
    assert!(d.secondary_messages().is_empty());
}

#[test]
fn json_error_adapter_normalises_foreign_error() {
    let e = serde_json::from_str::<serde_json::Value>("{").unwrap_err();
    let d = from_json_error(e);
    assert_eq!(d.kind(), ErrorKind::InvalidArgument);
    assert!(d.msg().starts_with("Invalid propriety: "));
    assert!(d.msg().len() > "Invalid propriety: ".len());
    assert_eq!(d.error_count(), 1);
}

#[test]
fn address_description_adapter_keeps_text() {
    let d = from_address_description("invalid IP address syntax");
    assert_eq!(d.kind(), ErrorKind::InvalidArgument);
    assert_eq!(d.msg(), "Invalid IP address : invalid IP address syntax");
}

#[test]
fn snapshot_text_passes_through_valid_utf8() {
    let bytes = "interfaces:\n- name: eth0\n".as_bytes().to_vec();
    let (text, faults) = snapshot_text(bytes, 0).unwrap();
    assert_eq!(text, "interfaces:\n- name: eth0\n");
    assert_eq!(faults, 0);
}

#[test]
fn snapshot_text_keeps_fault_tally() {
    let (_, faults) = snapshot_text(b"ok".to_vec(), 2).unwrap();
    assert_eq!(faults, 2);
}

#[test]
fn snapshot_text_rejects_malformed_bytes() {
    let d = snapshot_text(vec![0x66, 0xff, 0xfe], 0).unwrap_err();
    assert_eq!(d.kind(), ErrorKind::Bug);
    assert!(d.msg().starts_with("UTF-8 conversion error: "));
    assert_eq!(d.error_count(), 1);
}
