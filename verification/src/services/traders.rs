//! The trader service: where it is reached and how many handles its pool
//! keeps.

use vstd::prelude::*;
use vstd::string::*;

verus! {

/// The most handles that the trader service pool keeps. The trader service
/// is the one called most often, so its pool is the largest.
pub const TRADER_POOL_SIZE: usize = 500;

/// The topic on which balance changes of traders are announced.
pub const TRADER_CHANGE_BALANCE_TOPIC: &'static str = "trader_change_balance";

/// Creates the handles of the trader service pool: it knows the address at
/// which the service is reached. Handles connect on first use.
#[derive(Debug)]
pub struct TraderServiceManager {
    addr: String,
}

impl TraderServiceManager {
    /// The address at which the service is reached.
    pub closed spec fn address(&self) -> Seq<char> {
        self.addr@
    }

    /// A manager for the service at `addr`.
    pub fn new(addr: String) -> (manager: TraderServiceManager)
        ensures
            manager.address() == addr@,
    {
        TraderServiceManager { addr }
    }

    /// The address at which the service is reached.
    pub fn addr(&self) -> (addr: &str)
        ensures
            addr@ == self.address(),
    {
        self.addr.as_str()
    }
}

} // verus!
