//! The closed set of error kinds that a denied request can surface, and the
//! fixed response that each kind maps to.

use vstd::prelude::*;
use vstd::string::*;

use crate::text::decimal;

verus! {

/// Every way in which the boundary can refuse a request.
#[derive(Debug, Clone, Copy, PartialOrd, PartialEq, Eq, Structural)]
pub enum LibError {
    TraderNotFound,
    Forbidden,
    Unauthorized,
    InternalError,
    MerchantNotFound,
    NotFound,
    NoAvailableRequisites,
    InsufficientFunds,
    InvalidAmount,
    Conflict,
}

/// The content type of every error response.
pub const JSON_CONTENT_TYPE: &'static str = "application/json";

/// The response sent for an error kind: a status code, the content type and
/// a JSON body.
#[derive(Debug, Clone, Copy)]
pub struct ErrorResponse {
    pub status: u16,
    pub content_type: &'static str,
    pub body: &'static str,
}

/// The status code of each error kind.
pub open spec fn status_of(kind: LibError) -> u16 {
    match kind {
        LibError::Unauthorized => 401,
        LibError::Forbidden => 403,
        LibError::NotFound => 404,
        LibError::TraderNotFound => 404,
        LibError::MerchantNotFound => 404,
        LibError::InternalError => 500,
        LibError::NoAvailableRequisites => 500,
        LibError::InsufficientFunds => 400,
        LibError::InvalidAmount => 400,
        LibError::Conflict => 409,
    }
}

/// The human-readable message of each error kind.
pub open spec fn message_of(kind: LibError) -> Seq<char> {
    match kind {
        LibError::Unauthorized => "Unauthorized"@,
        LibError::Forbidden => "Forbidden"@,
        LibError::NotFound => "Not Found"@,
        LibError::TraderNotFound => "Trader not found"@,
        LibError::MerchantNotFound => "Merchant not found"@,
        LibError::InternalError => "Internal Error"@,
        LibError::NoAvailableRequisites => "No Available Requisites"@,
        LibError::InsufficientFunds => "Insufficient Funds"@,
        LibError::InvalidAmount => "Invalid Amount"@,
        LibError::Conflict => "Conflict"@,
    }
}

/// What separates the two members of the body: a comma and a space, but for
/// insufficient funds, whose body has the comma alone.
pub open spec fn separator_of(kind: LibError) -> Seq<char> {
    if kind == LibError::InsufficientFunds {
        ","@
    } else {
        ", "@
    }
}

/// The body of each error kind: `{"error":<code>, "message":"<text>"}`.
pub open spec fn body_of(kind: LibError) -> Seq<char> {
    "{\"error\":"@ + decimal(status_of(kind) as nat) + separator_of(kind) + "\"message\":\""@
        + message_of(kind) + "\"}"@
}

impl LibError {
    /// The status code sent for this kind.
    pub fn status_code(&self) -> (status: u16)
        ensures
            status == status_of(*self),
    {
        match self {
            LibError::Unauthorized => 401,
            LibError::Forbidden => 403,
            LibError::NotFound => 404,
            LibError::TraderNotFound => 404,
            LibError::MerchantNotFound => 404,
            LibError::InternalError => 500,
            LibError::NoAvailableRequisites => 500,
            LibError::InsufficientFunds => 400,
            LibError::InvalidAmount => 400,
            LibError::Conflict => 409,
        }
    }

    /// The message sent for this kind.
    pub fn message(&self) -> (text: &'static str)
        ensures
            text@ == message_of(*self),
    {
        match self {
            LibError::Unauthorized => "Unauthorized",
            LibError::Forbidden => "Forbidden",
            LibError::NotFound => "Not Found",
            LibError::TraderNotFound => "Trader not found",
            LibError::MerchantNotFound => "Merchant not found",
            LibError::InternalError => "Internal Error",
            LibError::NoAvailableRequisites => "No Available Requisites",
            LibError::InsufficientFunds => "Insufficient Funds",
            LibError::InvalidAmount => "Invalid Amount",
            LibError::Conflict => "Conflict",
        }
    }

    /// The JSON body sent for this kind.
    pub fn body(&self) -> (text: &'static str)
        ensures
            text@ == body_of(*self),
    {
        proof {
            reveal_with_fuel(decimal, 3);
            reveal_strlit("{\"error\":");
            reveal_strlit(",");
            reveal_strlit(", ");
            reveal_strlit("\"message\":\"");
            reveal_strlit("\"}");
        }
        let text = match self {
            LibError::Unauthorized => {
                proof {
                    reveal_strlit("{\"error\":401, \"message\":\"Unauthorized\"}");
                    reveal_strlit("Unauthorized");
                }
                "{\"error\":401, \"message\":\"Unauthorized\"}"
            },
            LibError::Forbidden => {
                proof {
                    reveal_strlit("{\"error\":403, \"message\":\"Forbidden\"}");
                    reveal_strlit("Forbidden");
                }
                "{\"error\":403, \"message\":\"Forbidden\"}"
            },
            LibError::NotFound => {
                proof {
                    reveal_strlit("{\"error\":404, \"message\":\"Not Found\"}");
                    reveal_strlit("Not Found");
                }
                "{\"error\":404, \"message\":\"Not Found\"}"
            },
            LibError::TraderNotFound => {
                proof {
                    reveal_strlit("{\"error\":404, \"message\":\"Trader not found\"}");
                    reveal_strlit("Trader not found");
                }
                "{\"error\":404, \"message\":\"Trader not found\"}"
            },
            LibError::MerchantNotFound => {
                proof {
                    reveal_strlit("{\"error\":404, \"message\":\"Merchant not found\"}");
                    reveal_strlit("Merchant not found");
                }
                "{\"error\":404, \"message\":\"Merchant not found\"}"
            },
            LibError::InternalError => {
                proof {
                    reveal_strlit("{\"error\":500, \"message\":\"Internal Error\"}");
                    reveal_strlit("Internal Error");
                }
                "{\"error\":500, \"message\":\"Internal Error\"}"
            },
            LibError::NoAvailableRequisites => {
                proof {
                    reveal_strlit("{\"error\":500, \"message\":\"No Available Requisites\"}");
                    reveal_strlit("No Available Requisites");
                }
                "{\"error\":500, \"message\":\"No Available Requisites\"}"
            },
            LibError::InsufficientFunds => {
                proof {
                    reveal_strlit("{\"error\":400,\"message\":\"Insufficient Funds\"}");
                    reveal_strlit("Insufficient Funds");
                }
                "{\"error\":400,\"message\":\"Insufficient Funds\"}"
            },
            LibError::InvalidAmount => {
                proof {
                    reveal_strlit("{\"error\":400, \"message\":\"Invalid Amount\"}");
                    reveal_strlit("Invalid Amount");
                }
                "{\"error\":400, \"message\":\"Invalid Amount\"}"
            },
            LibError::Conflict => {
                proof {
                    reveal_strlit("{\"error\":409, \"message\":\"Conflict\"}");
                    reveal_strlit("Conflict");
                }
                "{\"error\":409, \"message\":\"Conflict\"}"
            },
        };
        assert(text@ =~= body_of(*self));
        text
    }

    /// The response sent for this kind. It depends on the kind alone: no
    /// detail of what went wrong reaches the caller.
    pub fn into_response(self) -> (response: ErrorResponse)
        ensures
            response.status == status_of(self),
            response.content_type@ == JSON_CONTENT_TYPE@,
            response.body@ == body_of(self),
    {
        ErrorResponse {
            status: self.status_code(),
            content_type: JSON_CONTENT_TYPE,
            body: self.body(),
        }
    }
}

/// Every error kind is sent with a client or server error status.
pub proof fn status_is_an_error(kind: LibError)
    ensures
        400 <= status_of(kind) < 600,
{
}

} // verus!
