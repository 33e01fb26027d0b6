//! The trust boundary of a payment platform: error taxonomy, request gates,
//! cache-aside resolution of trust state, signature verification and the
//! retry rules for remote calls.

use vstd::prelude::*;

pub mod clock;
pub mod errors;
pub mod middlewares;
pub mod models;
pub mod repository;
pub mod retry;
pub mod services;
pub mod text;
pub mod use_case;

verus! {

/// Adds two unsigned integers whose sum fits the result type.
pub fn add(left: u64, right: u64) -> (sum: u64)
    requires
        left + right <= u64::MAX,
    ensures
        sum == left + right,
{
    left + right
}

} // verus!
