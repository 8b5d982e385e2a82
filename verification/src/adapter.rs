//! Boundary adapters: foreign failure domains normalised into the model.
//!
//! Each adapter targets one foreign domain, maps it to `InvalidArgument`, and
//! keeps the foreign description verbatim inside the message after a fixed
//! prefix. No foreign failure value leaves this boundary unconverted.

use vstd::prelude::*;

use crate::error::DiagnosticView;
use crate::error::ErrorKind;
use crate::error::NmstateError;

verus! {

// `serde_json::Error` stands in a signature below, so the type is declared.
#[verifier::external_type_specification]
#[verifier::external_body]
pub struct ExSerdeJsonError(serde_json::Error);

/// Relies on `serde_json::Error`'s `Display` impl for the human-readable
/// description of the parse failure; nothing is assumed of the text.
#[verifier::external_body]
fn json_error_description(e: &serde_json::Error) -> String {
    e.to_string()
}

/// Adapter for structured-data parse failures, given their description:
/// the diagnostic is `InvalidArgument`, counted once, with the description
/// kept verbatim after the fixed prefix.
pub fn from_json_description(description: &str) -> (r: NmstateError)
    ensures
        r@ == (DiagnosticView {
            kind: ErrorKind::InvalidArgument,
            msg: "Invalid propriety: "@ + description@,
            line: Seq::empty(),
            position: 0,
            error_count: 1,
            errors: Seq::empty(),
        }),
{
    let msg = String::from_str("Invalid propriety: ").concat(description);
    NmstateError::new(ErrorKind::InvalidArgument, msg)
}

/// Adapter for a structured-data parse failure itself: normalises
/// `serde_json::Error` into the model, preserving its description in the
/// message.
pub fn from_json_error(e: serde_json::Error) -> (r: NmstateError)
    ensures
        r@.kind == ErrorKind::InvalidArgument,
        r@.error_count == 1,
        r@.errors.len() == 0,
        r@.line.len() == 0,
        r@.position == 0,
        r@.msg.len() >= "Invalid propriety: "@.len(),
        r@.msg.subrange(0, "Invalid propriety: "@.len() as int) == "Invalid propriety: "@,
{
    let description = json_error_description(&e);
    let r = from_json_description(description.as_str());
    proof {
        assert(r@.msg.subrange(0, "Invalid propriety: "@.len() as int) =~= "Invalid propriety: "@);
    }
    r
}

/// Adapter for network-address parse failures, given their description: the
/// diagnostic is `InvalidArgument`, counted once, with the description kept
/// verbatim after the fixed prefix. The I/O edge that meets the foreign
/// error value extracts its description and hands it here.
pub fn from_address_description(description: &str) -> (r: NmstateError)
    ensures
        r@ == (DiagnosticView {
            kind: ErrorKind::InvalidArgument,
            msg: "Invalid IP address : "@ + description@,
            line: Seq::empty(),
            position: 0,
            error_count: 1,
            errors: Seq::empty(),
        }),
{
    let msg = String::from_str("Invalid IP address : ").concat(description);
    NmstateError::new(ErrorKind::InvalidArgument, msg)
}

} // verus!
