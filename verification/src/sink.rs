//! The tail of the resilient text sink: after a snapshot was emitted into a
//! byte buffer - each destination write fault tallied alongside - the bytes
//! are validated as well-formed text and paired with the tally.

use vstd::prelude::*;

use vstd::utf8::decode_utf8;
use vstd::utf8::valid_utf8;

use crate::error::ErrorKind;
use crate::error::NmstateError;

verus! {

/// The decoding complaint that std's `String::from_utf8` reports for a byte
/// sequence that is not valid UTF-8: a deterministic function of the bytes
/// alone, naming the invalid sequence's length and index.
pub uninterp spec fn utf8_complaint(bytes: Seq<u8>) -> Seq<char>;

/// Relies on `String::from_utf8` (std): it returns `Ok` exactly when the
/// bytes are a valid UTF-8 encoding, the string holding their decoding; its
/// error's `Display` impl describes the decoding complaint, a function of
/// the bytes alone.
#[verifier::external_body]
fn bytes_to_text(bytes: Vec<u8>) -> (r: Result<String, String>)
    ensures
        r is Ok <==> valid_utf8(bytes@),
        r is Ok ==> r->Ok_0@ == decode_utf8(bytes@),
        r is Err ==> r->Err_0@ == utf8_complaint(bytes@),
{
    match String::from_utf8(bytes) {
        Ok(s) => Ok(s),
        Err(e) => Err(e.to_string()),
    }
}

/// Seals one snapshot emission: validates the emitted bytes as well-formed
/// text and pairs the text with the tally of destination write faults seen
/// while emitting. A validation failure is a distinct failure, separate from
/// the write faults - the emitter broke its contract to produce text, hence
/// `Bug` - and carries the original decoding complaint in its message.
pub fn snapshot_text(bytes: Vec<u8>, write_faults: usize) -> (r: Result<
    (String, usize),
    NmstateError,
>)
    ensures
        r is Ok <==> valid_utf8(bytes@),
        r matches Ok(p) ==> p.0@ == decode_utf8(bytes@) && p.1 == write_faults,
        r matches Err(d) ==> {
            &&& d@.kind == ErrorKind::Bug
            &&& d@.error_count == 1
            &&& d@.errors.len() == 0
            &&& d@.msg == "UTF-8 conversion error: "@ + utf8_complaint(bytes@)
        },
{
    match bytes_to_text(bytes) {
        Ok(text) => Ok((text, write_faults)),
        Err(complaint) => {
            let msg = String::from_str("UTF-8 conversion error: ").concat(complaint.as_str());
            Err(NmstateError::new(ErrorKind::Bug, msg))
        },
    }
}

} // verus!
