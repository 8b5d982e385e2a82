//! The pure decision core of the apply-verify-retry controller.
//!
//! The controller owns no I/O. The surrounding runtime performs the blocking
//! apply and verify calls and the inter-retry wait, and reports each outcome
//! here; the methods consult the classifier, keep the failure history, and
//! decide the next state. One controller drives one session to completion;
//! independent sessions share no state.

use vstd::prelude::*;

use crate::error::DiagnosticView;
use crate::error::ErrorKind;
use crate::error::NmstateError;
use crate::error::ignorable;
use crate::error::retryable;
use crate::error::texts_of;

verus! {

/// The state of a session.
#[derive(Debug, Clone, Copy, PartialEq, Eq, Structural)]
pub enum ControllerPhase {
    /// Not yet started.
    Idle,
    /// The apply collaborator is running.
    Applying,
    /// The verify collaborator is running.
    Verifying,
    /// A retryable failure was absorbed; the retry delay is being waited out.
    Retrying,
    /// Terminal: applied and verified.
    Succeeded,
    /// Terminal: verified up to an ignorable residual failure at the final
    /// attempt, kept as a warning.
    SucceededIgnored,
    /// Terminal: the session failed.
    Failed,
}

/// Model of a controller: its configuration, progress, and the message of
/// every failed attempt so far, in order.
pub struct ControllerView {
    pub max_attempts: nat,
    pub retry_delay_ms: nat,
    pub attempt: nat,
    pub phase: ControllerPhase,
    pub failures: Seq<Seq<char>>,
}

impl ControllerView {
    /// Invariant: at least one attempt is budgeted; the attempt counter is 0
    /// only before the session starts and never passes the budget.
    pub open spec fn wf(self) -> bool {
        &&& self.max_attempts >= 1
        &&& self.attempt <= self.max_attempts
        &&& (self.phase == ControllerPhase::Idle <==> self.attempt == 0)
    }
}

/// The diagnostic that ends a session after the given failure history:
/// it reports the last failure's kind and message, counts every failed
/// attempt, and lists the individual messages when more than one occurred.
pub open spec fn session_diagnostic(
    kind: ErrorKind,
    msg: Seq<char>,
    history: Seq<Seq<char>>,
) -> DiagnosticView {
    DiagnosticView {
        kind,
        msg,
        line: Seq::empty(),
        position: 0,
        error_count: history.len(),
        errors: if history.len() == 1 {
            Seq::empty()
        } else {
            history
        },
    }
}

/// Drives one apply-verify-retry session: absorbs retryable failures while
/// attempts remain, accepts an ignorable residual mismatch at the final
/// attempt as a warning, and escalates everything else.
pub struct RetryController {
    max_attempts: usize,
    retry_delay_ms: u64,
    attempt: usize,
    phase: ControllerPhase,
    failure_msgs: Vec<String>,
}

impl View for RetryController {
    type V = ControllerView;

    closed spec fn view(&self) -> ControllerView {
        ControllerView {
            max_attempts: self.max_attempts as nat,
            retry_delay_ms: self.retry_delay_ms as nat,
            attempt: self.attempt as nat,
            phase: self.phase,
            failures: texts_of(self.failure_msgs@),
        }
    }
}

fn clone_messages(v: &Vec<String>) -> (r: Vec<String>)
    ensures
        r@ == v@,
{
    let mut r: Vec<String> = Vec::new();
    let mut i: usize = 0;
    while i < v.len()
        invariant
            i <= v@.len(),
            r@ == v@.take(i as int),
        decreases v@.len() - i,
    {
        r.push(v[i].clone());
        proof {
            assert(r@ =~= v@.take(i as int + 1));
        }
        i = i + 1;
    }
    proof {
        assert(v@.take(v@.len() as int) =~= v@);
    }
    r
}

impl RetryController {
    /// A fresh session with the given retry budget and inter-retry delay.
    pub fn new(max_attempts: usize, retry_delay_ms: u64) -> (c: Self)
        requires
            max_attempts >= 1,
        ensures
            c@ == (ControllerView {
                max_attempts: max_attempts as nat,
                retry_delay_ms: retry_delay_ms as nat,
                attempt: 0,
                phase: ControllerPhase::Idle,
                failures: Seq::empty(),
            }),
            c@.wf(),
    {
        let c = Self {
            max_attempts,
            retry_delay_ms,
            attempt: 0,
            phase: ControllerPhase::Idle,
            failure_msgs: Vec::new(),
        };
        proof {
            assert(c@.failures =~= Seq::<Seq<char>>::empty());
        }
        c
    }

    pub fn phase(&self) -> (r: ControllerPhase)
        ensures
            r == self@.phase,
    {
        self.phase
    }

    /// The 1-based number of the attempt under way (0 before the start).
    pub fn attempt(&self) -> (r: usize)
        ensures
            r == self@.attempt,
    {
        self.attempt
    }

    pub fn max_attempts(&self) -> (r: usize)
        ensures
            r == self@.max_attempts,
    {
        self.max_attempts
    }

    /// How long the runtime is to wait between a retry decision and the next
    /// apply call.
    pub fn retry_delay_ms(&self) -> (r: u64)
        ensures
            r == self@.retry_delay_ms,
    {
        self.retry_delay_ms
    }

    /// Begins the session: the first attempt enters `Applying`.
    pub fn start(&mut self)
        requires
            old(self)@.wf(),
            old(self)@.phase == ControllerPhase::Idle,
        ensures
            final(self)@ == (ControllerView {
                attempt: 1,
                phase: ControllerPhase::Applying,
                ..old(self)@
            }),
            final(self)@.wf(),
    {
        self.attempt = 1;
        self.phase = ControllerPhase::Applying;
    }

    /// A clean apply: the session moves on to verification.
    pub fn apply_succeeded(&mut self)
        requires
            old(self)@.wf(),
            old(self)@.phase == ControllerPhase::Applying,
        ensures
            final(self)@ == (ControllerView {
                phase: ControllerPhase::Verifying,
                ..old(self)@
            }),
            final(self)@.wf(),
    {
        self.phase = ControllerPhase::Verifying;
    }

    /// A failed apply: the classifier decides. A retryable failure with
    /// budget left is absorbed into `Retrying` and surfaces nothing; any
    /// other failure ends the session at once, with the diagnostic built
    /// from the whole failure history.
    pub fn apply_failed(&mut self, kind: ErrorKind, msg: String) -> (r: Option<NmstateError>)
        requires
            old(self)@.wf(),
            old(self)@.phase == ControllerPhase::Applying,
        ensures
            final(self)@.wf(),
            final(self)@.failures == old(self)@.failures.push(msg@),
            final(self)@.max_attempts == old(self)@.max_attempts,
            final(self)@.retry_delay_ms == old(self)@.retry_delay_ms,
            retryable(kind) && old(self)@.attempt < old(self)@.max_attempts ==> {
                &&& final(self)@.phase == ControllerPhase::Retrying
                &&& final(self)@.attempt == old(self)@.attempt + 1
                &&& r is None
            },
            !(retryable(kind) && old(self)@.attempt < old(self)@.max_attempts) ==> {
                &&& final(self)@.phase == ControllerPhase::Failed
                &&& final(self)@.attempt == old(self)@.attempt
                &&& r matches Some(d) && d@ == session_diagnostic(
                    kind,
                    msg@,
                    old(self)@.failures.push(msg@),
                )
            },
    {
        self.failure_msgs.push(msg);
        proof {
            assert(texts_of(self.failure_msgs@) =~= old(self)@.failures.push(
                self.failure_msgs@.last()@,
            ));
        }
        if kind.can_retry() && self.attempt < self.max_attempts {
            self.attempt = self.attempt + 1;
            self.phase = ControllerPhase::Retrying;
            None
        } else {
            self.phase = ControllerPhase::Failed;
            Some(self.build_diagnostic(kind))
        }
    }

    /// The retry delay has elapsed: the next attempt re-applies in full.
    pub fn resume(&mut self)
        requires
            old(self)@.wf(),
            old(self)@.phase == ControllerPhase::Retrying,
        ensures
            final(self)@ == (ControllerView {
                phase: ControllerPhase::Applying,
                ..old(self)@
            }),
            final(self)@.wf(),
    {
        self.phase = ControllerPhase::Applying;
    }

    /// A clean match: the session succeeded.
    pub fn verify_succeeded(&mut self)
        requires
            old(self)@.wf(),
            old(self)@.phase == ControllerPhase::Verifying,
        ensures
            final(self)@ == (ControllerView {
                phase: ControllerPhase::Succeeded,
                ..old(self)@
            }),
            final(self)@.wf(),
    {
        self.phase = ControllerPhase::Succeeded;
    }

    /// A verify mismatch: the classifier decides. At the final permitted
    /// attempt an ignorable kind ends the session as `SucceededIgnored`, the
    /// diagnostic kept as a non-fatal warning. Otherwise a retryable
    /// mismatch with budget left is absorbed into `Retrying` - the next
    /// attempt re-applies in full, it does not merely re-verify - and
    /// anything else ends the session as `Failed`.
    pub fn verify_failed(&mut self, kind: ErrorKind, msg: String) -> (r: Option<NmstateError>)
        requires
            old(self)@.wf(),
            old(self)@.phase == ControllerPhase::Verifying,
        ensures
            final(self)@.wf(),
            final(self)@.failures == old(self)@.failures.push(msg@),
            final(self)@.max_attempts == old(self)@.max_attempts,
            final(self)@.retry_delay_ms == old(self)@.retry_delay_ms,
            final(self)@.attempt == old(self)@.attempt + (
            if (!(old(self)@.attempt == old(self)@.max_attempts && ignorable(kind))
                && retryable(kind) && old(self)@.attempt < old(self)@.max_attempts) {
                1int
            } else {
                0int
            }),
            old(self)@.attempt == old(self)@.max_attempts && ignorable(kind) ==> {
                &&& final(self)@.phase == ControllerPhase::SucceededIgnored
                &&& r matches Some(d) && d@ == session_diagnostic(
                    kind,
                    msg@,
                    old(self)@.failures.push(msg@),
                )
            },
            !(old(self)@.attempt == old(self)@.max_attempts && ignorable(kind)) && retryable(kind)
                && old(self)@.attempt < old(self)@.max_attempts ==> {
                &&& final(self)@.phase == ControllerPhase::Retrying
                &&& r is None
            },
            !(old(self)@.attempt == old(self)@.max_attempts && ignorable(kind)) && !(retryable(kind)
                && old(self)@.attempt < old(self)@.max_attempts) ==> {
                &&& final(self)@.phase == ControllerPhase::Failed
                &&& r matches Some(d) && d@ == session_diagnostic(
                    kind,
                    msg@,
                    old(self)@.failures.push(msg@),
                )
            },
    {
        self.failure_msgs.push(msg);
        proof {
            assert(texts_of(self.failure_msgs@) =~= old(self)@.failures.push(
                self.failure_msgs@.last()@,
            ));
        }
        if self.attempt == self.max_attempts && kind.can_ignore() {
            self.phase = ControllerPhase::SucceededIgnored;
            Some(self.build_diagnostic(kind))
        } else if kind.can_retry() && self.attempt < self.max_attempts {
            self.attempt = self.attempt + 1;
            self.phase = ControllerPhase::Retrying;
            None
        } else {
            self.phase = ControllerPhase::Failed;
            Some(self.build_diagnostic(kind))
        }
    }

    /// The diagnostic reporting this session's failure history.
    fn build_diagnostic(&self, kind: ErrorKind) -> (r: NmstateError)
        requires
            self@.failures.len() >= 1,
        ensures
            r@ == session_diagnostic(kind, self@.failures.last(), self@.failures),
    {
        let n = self.failure_msgs.len();
        let last = self.failure_msgs[n - 1].clone();
        if n == 1 {
            let r = NmstateError::new(kind, last);
            proof {
                assert(r@ =~= session_diagnostic(kind, self@.failures.last(), self@.failures));
            }
            r
        } else {
            let msgs = clone_messages(&self.failure_msgs);
            let r = NmstateError::new_with_multiple_errors(kind, last, msgs);
            proof {
                assert(r@ =~= session_diagnostic(kind, self@.failures.last(), self@.failures));
            }
            r
        }
    }
}

} // verus!
