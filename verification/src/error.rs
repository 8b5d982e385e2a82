//! Failure kinds, the retry/ignore classifier, and the diagnostic record.

use vstd::prelude::*;

verus! {

/// Category tag of a failure. The set is open: future kinds may be added, so
/// consumers outside this crate must keep a fallback arm when matching.
#[derive(Debug, Clone, Copy, PartialEq, Eq, Structural)]
#[non_exhaustive]
pub enum ErrorKind {
    /// Malformed or semantically invalid input supplied by the caller.
    InvalidArgument,
    /// A backend applier or verifier failed to execute correctly.
    PluginFailure,
    /// Internal invariant violation; also the classifier's sentinel default.
    Bug,
    /// Post-apply state does not match the desired state.
    VerificationError,
    /// Requested feature unsupported by this build.
    NotImplementedError,
    /// Requested feature unsupported by the target host or hardware.
    NotSupportedError,
    /// A numeric value was silently rounded by the kernel.
    KernelIntegerRoundedError,
    /// A required external component or resource is missing.
    DependencyError,
    /// A policy rule failed evaluation; carries a source location.
    PolicyError,
    /// The caller lacks privilege for the operation.
    PermissionError,
    /// An expected virtual function device is not yet visible to the host.
    SrIovVfNotFound,
}

/// The retry column of the classifier table: failures that can plausibly
/// resolve themselves on a later attempt.
pub open spec fn retryable(k: ErrorKind) -> bool {
    k == ErrorKind::PluginFailure || k == ErrorKind::Bug || k == ErrorKind::VerificationError
        || k == ErrorKind::SrIovVfNotFound
}

/// The ignore column of the classifier table: failures accepted as a warning
/// when they still stand at the final permitted attempt.
pub open spec fn ignorable(k: ErrorKind) -> bool {
    k == ErrorKind::SrIovVfNotFound
}

impl ErrorKind {
    /// Whether re-attempting the apply/verify cycle may clear this failure.
    pub fn can_retry(&self) -> (r: bool)
        ensures
            r == retryable(*self),
    {
        matches!(
            self,
            ErrorKind::PluginFailure
                | ErrorKind::Bug
                | ErrorKind::VerificationError
                | ErrorKind::SrIovVfNotFound
        )
    }

    /// Whether this failure may be accepted as a non-fatal warning at the
    /// final retry, e.g. while waiting for SR-IOV to expose all VFs.
    pub fn can_ignore(&self) -> (r: bool)
        ensures
            r == ignorable(*self),
    {
        matches!(self, ErrorKind::SrIovVfNotFound)
    }
}

impl Default for ErrorKind {
    /// The sentinel kind for failures nobody classified.
    fn default() -> (r: Self)
        ensures
            r == ErrorKind::Bug,
    {
        ErrorKind::Bug
    }
}

/// Mathematical model of a [`NmstateError`]: the same record over sequences
/// and unbounded integers.
pub struct DiagnosticView {
    pub kind: ErrorKind,
    pub msg: Seq<char>,
    pub line: Seq<char>,
    pub position: nat,
    pub error_count: nat,
    pub errors: Seq<Seq<char>>,
}

/// The views of a list of owned messages.
pub open spec fn texts_of(v: Seq<String>) -> Seq<Seq<char>> {
    Seq::new(v.len(), |i: int| v[i]@)
}

impl DiagnosticView {
    /// Invariant of every diagnostic this crate constructs: at least one
    /// error is always counted, and the source location is kept only for
    /// policy failures.
    pub open spec fn wf(self) -> bool {
        &&& self.error_count >= 1
        &&& self.kind != ErrorKind::PolicyError ==> self.line.len() == 0 && self.position == 0
    }
}

/// An immutable failure record: a kind, a primary message, an occurrence
/// count, optional secondary messages, and - for policy failures - the source
/// line together with the zero-based character offset of the offending spot.
#[derive(Debug, Clone, PartialEq, Eq)]
#[non_exhaustive]
pub struct NmstateError {
    kind: ErrorKind,
    msg: String,
    line: String,
    position: usize,
    error_count: usize,
    errors: Vec<String>,
}

impl View for NmstateError {
    type V = DiagnosticView;

    closed spec fn view(&self) -> DiagnosticView {
        DiagnosticView {
            kind: self.kind,
            msg: self.msg@,
            line: self.line@,
            position: self.position as nat,
            error_count: self.error_count as nat,
            errors: texts_of(self.errors@),
        }
    }
}

impl NmstateError {
    /// Single-message construction: one failure, counted once.
    pub fn new(kind: ErrorKind, msg: String) -> (r: Self)
        ensures
            r@ == (DiagnosticView {
                kind,
                msg: msg@,
                line: Seq::empty(),
                position: 0,
                error_count: 1,
                errors: Seq::empty(),
            }),
            r@.wf(),
    {
        Self::new_with_count(kind, msg, 1)
    }

    /// Single-message construction with an externally tallied occurrence
    /// count; the tally is independent of how many messages were captured.
    pub fn new_with_count(kind: ErrorKind, msg: String, error_count: usize) -> (r: Self)
        requires
            error_count >= 1,
        ensures
            r@ == (DiagnosticView {
                kind,
                msg: msg@,
                line: Seq::empty(),
                position: 0,
                error_count: error_count as nat,
                errors: Seq::empty(),
            }),
            r@.wf(),
    {
        let r = Self {
            kind,
            msg,
            line: String::new(),
            position: 0,
            error_count,
            errors: Vec::new(),
        };
        proof {
            assert(r@.errors =~= Seq::<Seq<char>>::empty());
        }
        r
    }

    /// Multi-message construction: the count is the number of messages, and
    /// their order is preserved.
    pub fn new_with_multiple_errors(kind: ErrorKind, msg: String, errors: Vec<String>) -> (r: Self)
        requires
            errors@.len() >= 1,
        ensures
            r@ == (DiagnosticView {
                kind,
                msg: msg@,
                line: Seq::empty(),
                position: 0,
                error_count: errors@.len(),
                errors: texts_of(errors@),
            }),
            r@.wf(),
    {
        let error_count = errors.len();
        Self { kind, msg, line: String::new(), position: 0, error_count, errors }
    }

    /// Policy-located construction: a policy rule failed evaluation at the
    /// zero-based `position` within `line`; counted once.
    pub fn new_policy_error(msg: String, line: &str, position: usize) -> (r: Self)
        ensures
            r@ == (DiagnosticView {
                kind: ErrorKind::PolicyError,
                msg: msg@,
                line: line@,
                position: position as nat,
                error_count: 1,
                errors: Seq::empty(),
            }),
            r@.wf(),
    {
        let r = Self {
            kind: ErrorKind::PolicyError,
            line: line.to_owned(),
            msg,
            position,
            error_count: 1,
            errors: Vec::new(),
        };
        proof {
            assert(r@.errors =~= Seq::<Seq<char>>::empty());
        }
        r
    }

    pub fn kind(&self) -> (r: ErrorKind)
        ensures
            r == self@.kind,
    {
        self.kind
    }

    pub fn msg(&self) -> (r: &str)
        ensures
            r@ == self@.msg,
    {
        self.msg.as_str()
    }

    pub fn line(&self) -> (r: &str)
        ensures
            r@ == self@.line,
    {
        self.line.as_str()
    }

    /// The position of the character in `line` which caused the policy
    /// failure; the first character is position 0.
    pub fn position(&self) -> (r: usize)
        ensures
            r == self@.position,
    {
        self.position
    }

    /// How many individual failures this record stands for.
    pub fn error_count(&self) -> (r: usize)
        ensures
            r == self@.error_count,
    {
        self.error_count
    }

    /// The captured secondary messages, in the order they occurred.
    pub fn secondary_messages(&self) -> (r: &Vec<String>)
        ensures
            texts_of(r@) == self@.errors,
    {
        &self.errors
    }
}

} // verus!
