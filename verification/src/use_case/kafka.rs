//! Sending of queue messages: a send is attempted up to three times, with
//! the pause and the per-attempt timeout of every remote call. Whatever goes
//! wrong with an attempt, the next one is worth making.

use vstd::prelude::*;

use crate::errors::LibError;
use crate::retry::{decision_after, Classification, RetryContext, RetryDecision};

verus! {

/// The attempts allowed to the sending of one message.
pub const KAFKA_SEND_ATTEMPTS: u32 = 3;

/// How one attempt to send a message ended.
#[derive(Debug, Clone, Copy, PartialEq, Eq, Structural)]
pub enum SendOutcome {
    /// The queue took the message.
    Delivered,
    /// The queue refused the message.
    Refused,
    /// The queue did not answer in time.
    TimedOut,
}

/// How the end of an attempt to send is classified: no failure of a send is
/// permanent.
pub open spec fn send_class(outcome: SendOutcome) -> Classification {
    match outcome {
        SendOutcome::Delivered => Classification::Succeeded,
        SendOutcome::Refused => Classification::Transient,
        SendOutcome::TimedOut => Classification::TimedOut,
    }
}

/// The context in which one message is sent.
pub fn kafka_send_context() -> (context: RetryContext)
    ensures
        context.made() == 0,
        context.allowed() == KAFKA_SEND_ATTEMPTS,
        context.last() is None,
{
    RetryContext::new(KAFKA_SEND_ATTEMPTS)
}

/// Records how an attempt to send a message ended and decides what follows:
/// the message is delivered, or it is sent again after the pause, or, once
/// the attempts are used up, the sending has failed with an internal error.
/// The count of attempts must still fit its type.
pub fn send_kafka_message(context: &mut RetryContext, outcome: SendOutcome) -> (decision:
    RetryDecision)
    requires
        old(context).made() < u32::MAX,
    ensures
        final(context).allowed() == old(context).allowed(),
        final(context).made() == old(context).made() + 1,
        final(context).last() == Some(send_class(outcome)),
        decision == decision_after(
            final(context).made(),
            final(context).allowed(),
            send_class(outcome),
        ),
{
    let class = match outcome {
        SendOutcome::Delivered => Classification::Succeeded,
        SendOutcome::Refused => Classification::Transient,
        SendOutcome::TimedOut => Classification::TimedOut,
    };
    context.record(class)
}

/// A message that is not delivered within the attempts allowed fails with an
/// internal error, and a send never fails with anything else.
pub proof fn send_fails_only_with_internal_error(made: int, allowed: int, outcome: SendOutcome)
    ensures
        decision_after(made, allowed, send_class(outcome)) matches RetryDecision::Fail(kind)
            ==> kind == LibError::InternalError && made >= allowed && outcome
            != SendOutcome::Delivered,
{
}

} // verus!
