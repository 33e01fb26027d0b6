//! The bounded retry that wraps every remote operation: after each attempt
//! it decides whether the operation is done, is worth another attempt after
//! a fixed pause, or has failed for good.
//!
//! The caller makes the attempts and keeps the pauses; this module only
//! decides. One [`RetryContext`] lives for one logical call.

use vstd::prelude::*;

use crate::errors::LibError;
use crate::repository::{is_connection_err, shows_connection_error};
use crate::services::{is_transient, need_retry, status_kind, status_to_err, Status};
use crate::services::{CALL_TIMEOUT_MILLIS, RETRY_BACKOFF_MILLIS};

verus! {

/// How one attempt ended.
#[derive(Debug, Clone, Copy, PartialEq, Eq, Structural)]
pub enum Classification {
    /// The attempt returned a value.
    Succeeded,
    /// The attempt failed in a way that may pass on another attempt.
    Transient,
    /// The attempt failed for good, with this error kind.
    Permanent(LibError),
    /// The attempt did not answer within the per-call timeout.
    TimedOut,
}

/// What to do after an attempt.
#[derive(Debug, Clone, Copy, PartialEq, Eq, Structural)]
pub enum RetryDecision {
    /// The operation is done: hand its value on.
    Done,
    /// Pause for this many milliseconds, then attempt again.
    RetryAfter(u64),
    /// The operation has failed with this error kind.
    Fail(LibError),
}

/// The state of one logical call: the attempts made so far, the attempts
/// allowed, and how the last attempt ended.
#[derive(Debug, Clone, Copy)]
pub struct RetryContext {
    attempt_count: u32,
    max_attempts: u32,
    classification: Option<Classification>,
}

/// What is decided after an attempt that ended as `outcome`, when `made`
/// attempts have been made, this one included, and `allowed` are allowed.
pub open spec fn decision_after(made: int, allowed: int, outcome: Classification) -> RetryDecision {
    match outcome {
        Classification::Succeeded => RetryDecision::Done,
        Classification::Permanent(kind) => RetryDecision::Fail(kind),
        Classification::Transient | Classification::TimedOut => if made < allowed {
            RetryDecision::RetryAfter(RETRY_BACKOFF_MILLIS)
        } else {
            RetryDecision::Fail(LibError::InternalError)
        },
    }
}

/// How the failure of a remote call is classified by its status.
pub open spec fn status_class(status: Status) -> Classification {
    if is_transient(status.code) {
        Classification::Transient
    } else {
        Classification::Permanent(status_kind(status.code, status.message@))
    }
}

/// How the failure of a store call is classified by the text of its error.
pub open spec fn store_error_class(message: Seq<char>) -> Classification {
    if shows_connection_error(message) {
        Classification::Transient
    } else {
        Classification::Permanent(LibError::InternalError)
    }
}

/// The attempts that a call makes when its attempts end as `outcomes`, in
/// this order, starting after `made` attempts: it stops at the first attempt
/// that is not followed by a pause, or when the outcomes run out.
pub open spec fn attempts_made(outcomes: Seq<Classification>, made: int, allowed: int) -> int
    decreases outcomes.len(),
{
    if outcomes.len() == 0 {
        made
    } else if decision_after(made + 1, allowed, outcomes[0]) is RetryAfter {
        attempts_made(outcomes.drop_first(), made + 1, allowed)
    } else {
        made + 1
    }
}

/// Classifies the failure of a remote call by its status: a status that is
/// worth another attempt is transient, any other is permanent with the error
/// kind that the status maps to.
pub fn classify_status(status: &Status) -> (class: Classification)
    ensures
        class == status_class(*status),
{
    if need_retry(status.code) {
        Classification::Transient
    } else {
        Classification::Permanent(status_to_err(status))
    }
}

/// Classifies the failure of a store call by the text of its error: a text
/// that shows a lost connection or a timeout is transient, any other is a
/// permanent internal error.
pub fn classify_store_error(message: &str) -> (class: Classification)
    ensures
        class == store_error_class(message@),
{
    if is_connection_err(message) {
        Classification::Transient
    } else {
        Classification::Permanent(LibError::InternalError)
    }
}

impl RetryContext {
    /// The attempts made so far.
    pub closed spec fn made(&self) -> int {
        self.attempt_count as int
    }

    /// The attempts allowed.
    pub closed spec fn allowed(&self) -> int {
        self.max_attempts as int
    }

    /// How the last attempt ended, if one was made.
    pub closed spec fn last(&self) -> Option<Classification> {
        self.classification
    }

    /// The context of a call that has made no attempt yet.
    pub fn new(max_attempts: u32) -> (context: RetryContext)
        ensures
            context.made() == 0,
            context.allowed() == max_attempts,
            context.last() is None,
    {
        RetryContext { attempt_count: 0, max_attempts, classification: None }
    }

    /// The attempts made so far.
    pub fn attempt_count(&self) -> (made: u32)
        ensures
            made == self.made(),
    {
        self.attempt_count
    }

    /// The attempts allowed.
    pub fn max_attempts(&self) -> (allowed: u32)
        ensures
            allowed == self.allowed(),
    {
        self.max_attempts
    }

    /// How the last attempt ended, if one was made.
    pub fn classification(&self) -> (last: Option<Classification>)
        ensures
            last == self.last(),
    {
        self.classification
    }

    /// How long one attempt may take, in milliseconds.
    pub fn timeout_millis(&self) -> (millis: u64)
        ensures
            millis == CALL_TIMEOUT_MILLIS,
    {
        CALL_TIMEOUT_MILLIS
    }

    /// Records how an attempt ended and decides what follows. A success ends
    /// the call. A permanent failure ends it with its error kind. A transient
    /// failure or a timeout is followed by a pause and another attempt while
    /// attempts are left, and ends the call with an internal error when none
    /// is. The count of attempts must still fit its type.
    pub fn record(&mut self, outcome: Classification) -> (decision: RetryDecision)
        requires
            old(self).made() < u32::MAX,
        ensures
            final(self).allowed() == old(self).allowed(),
            final(self).made() == old(self).made() + 1,
            final(self).last() == Some(outcome),
            decision == decision_after(final(self).made(), final(self).allowed(), outcome),
            decision is RetryAfter ==> final(self).made() < final(self).allowed(),
    {
        self.attempt_count = self.attempt_count + 1;
        self.classification = Some(outcome);
        match outcome {
            Classification::Succeeded => RetryDecision::Done,
            Classification::Permanent(kind) => RetryDecision::Fail(kind),
            Classification::Transient | Classification::TimedOut => {
                if self.attempt_count < self.max_attempts {
                    RetryDecision::RetryAfter(RETRY_BACKOFF_MILLIS)
                } else {
                    RetryDecision::Fail(LibError::InternalError)
                }
            },
        }
    }
}

/// A call never makes more attempts than it is allowed, but for the first,
/// which it always makes when any outcome arrives.
pub proof fn attempts_are_bounded(outcomes: Seq<Classification>, made: int, allowed: int)
    requires
        0 <= made,
    ensures
        made <= attempts_made(outcomes, made, allowed),
        attempts_made(outcomes, made, allowed) <= made + outcomes.len(),
        made < allowed ==> attempts_made(outcomes, made, allowed) <= allowed,
        made >= allowed && outcomes.len() > 0 ==> attempts_made(outcomes, made, allowed) == made
            + 1,
    decreases outcomes.len(),
{
    if outcomes.len() > 0 {
        attempts_are_bounded(outcomes.drop_first(), made + 1, allowed);
    }
}

/// Once the attempts are used up, a transient failure or a timeout ends the
/// call with an internal error.
pub proof fn exhaustion_is_internal_error(made: int, allowed: int, outcome: Classification)
    requires
        made >= allowed,
        outcome == Classification::Transient || outcome == Classification::TimedOut,
    ensures
        decision_after(made, allowed, outcome) == RetryDecision::Fail(LibError::InternalError),
{
}

} // verus!
