//! Remote services: how a failed call is mapped onto the error taxonomy,
//! which failures are worth another attempt, and the rules of the bounded
//! retry that every outbound call goes through.

use vstd::prelude::*;
use vstd::string::*;

use crate::errors::LibError;
use crate::text::str_eq;

pub mod requisites;
pub mod traders;

verus! {

/// How long to wait between two attempts, in milliseconds.
pub const RETRY_BACKOFF_MILLIS: u64 = 100;

/// How long one attempt may take before it counts as timed out, in
/// milliseconds.
pub const CALL_TIMEOUT_MILLIS: u64 = 300;

/// The attempts allowed to most remote calls.
pub const RETRY_COUNT: u32 = 3;

/// The attempts allowed to the calls that move money: balance changes and
/// margin lookups.
pub const RETRY_COUNT_HIGH_VALUE: u32 = 5;

/// How long the connection to a service may take, in seconds.
pub const CONNECT_TIMEOUT_SECS: u64 = 5;

/// How long a request to a service may take on the transport, in seconds.
pub const REQUEST_TIMEOUT_SECS: u64 = 20;

/// The interval of TCP keep-alive probes on a service connection, in seconds.
pub const TCP_KEEPALIVE_SECS: u64 = 10;

/// The status code of a remote call, as gRPC defines it.
#[derive(Debug, Clone, Copy, PartialEq, Eq, Structural)]
pub enum Code {
    /// The call succeeded; a failed call does not carry this code.
    Okay,
    Cancelled,
    Unknown,
    InvalidArgument,
    DeadlineExceeded,
    NotFound,
    AlreadyExists,
    PermissionDenied,
    ResourceExhausted,
    FailedPrecondition,
    Aborted,
    OutOfRange,
    Unimplemented,
    Internal,
    Unavailable,
    DataLoss,
    Unauthenticated,
}

/// The status that a failed remote call returned.
#[derive(Debug)]
pub struct Status {
    pub code: Code,
    pub message: String,
}

/// The remote calls that the platform makes.
#[derive(Debug, Clone, Copy, PartialEq, Eq, Structural)]
pub enum RemoteCall {
    TraderChangeBalance,
    TraderMargin,
    MerchantChangeBalance,
    MerchantPaymentMethod,
    MerchantPaymentMethods,
    MerchantWebhookUrl,
    PaymentById,
    PaymentByExternalId,
    ClosePayment,
    RequisitesForPayment,
    DeviceStatus,
    BankInfo,
    ExchangeRate,
}

/// The error kind that a status code and message stand for. A message
/// counts only where it is exactly the expected text; every combination that
/// is not listed is an internal error.
pub open spec fn status_kind(code: Code, message: Seq<char>) -> LibError {
    match code {
        Code::Internal => LibError::InternalError,
        Code::NotFound => if message == "no available requisites"@ {
            LibError::NoAvailableRequisites
        } else {
            LibError::NotFound
        },
        Code::InvalidArgument => if message == "insufficient funds"@ {
            LibError::InsufficientFunds
        } else if message == "invalid amount"@ {
            LibError::InvalidAmount
        } else {
            LibError::InternalError
        },
        Code::Cancelled => LibError::Conflict,
        _ => LibError::InternalError,
    }
}

/// Whether a status code marks a failure that may pass on another attempt.
pub open spec fn is_transient(code: Code) -> bool {
    code == Code::DeadlineExceeded || code == Code::ResourceExhausted || code == Code::Aborted
        || code == Code::Unavailable
}

/// Whether a remote call moves money or reads a margin.
pub open spec fn is_high_value(call: RemoteCall) -> bool {
    call == RemoteCall::TraderChangeBalance || call == RemoteCall::MerchantChangeBalance || call
        == RemoteCall::TraderMargin
}

/// The attempts allowed to a remote call.
pub open spec fn attempts_allowed(call: RemoteCall) -> u32 {
    if is_high_value(call) {
        RETRY_COUNT_HIGH_VALUE
    } else {
        RETRY_COUNT
    }
}

/// Maps the status of a failed remote call onto the error taxonomy.
pub fn status_to_err(status: &Status) -> (kind: LibError)
    ensures
        kind == status_kind(status.code, status.message@),
{
    match status.code {
        Code::Internal => LibError::InternalError,
        Code::NotFound => {
            if str_eq(status.message.as_str(), "no available requisites") {
                LibError::NoAvailableRequisites
            } else {
                LibError::NotFound
            }
        },
        Code::InvalidArgument => {
            if str_eq(status.message.as_str(), "insufficient funds") {
                LibError::InsufficientFunds
            } else if str_eq(status.message.as_str(), "invalid amount") {
                LibError::InvalidAmount
            } else {
                LibError::InternalError
            }
        },
        Code::Cancelled => LibError::Conflict,
        _ => LibError::InternalError,
    }
}

/// Tests whether a failure with this status code is worth another attempt:
/// only an exceeded deadline, exhausted resources, an aborted call and an
/// unavailable service are.
pub fn need_retry(code: Code) -> (retry: bool)
    ensures
        retry == is_transient(code),
{
    match code {
        Code::DeadlineExceeded => true,
        Code::ResourceExhausted => true,
        Code::Aborted => true,
        Code::Unavailable => true,
        _ => false,
    }
}

/// The attempts allowed to a remote call: five where it moves money or
/// reads a margin, three otherwise.
pub fn max_attempts(call: RemoteCall) -> (allowed: u32)
    ensures
        allowed == attempts_allowed(call),
{
    match call {
        RemoteCall::TraderChangeBalance => RETRY_COUNT_HIGH_VALUE,
        RemoteCall::MerchantChangeBalance => RETRY_COUNT_HIGH_VALUE,
        RemoteCall::TraderMargin => RETRY_COUNT_HIGH_VALUE,
        _ => RETRY_COUNT,
    }
}

/// A failure that is worth another attempt is an internal error once the
/// attempts are used up, whatever its message.
pub proof fn transient_status_is_internal_error(code: Code, message: Seq<char>)
    requires
        is_transient(code),
    ensures
        status_kind(code, message) == LibError::InternalError,
{
}

} // verus!
