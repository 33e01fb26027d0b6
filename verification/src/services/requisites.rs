//! The requisites service: where it is reached and how many handles its
//! pool keeps.

use vstd::prelude::*;
use vstd::string::*;

verus! {

/// The most handles that the requisites service pool keeps.
pub const REQUISITE_POOL_SIZE: usize = 100;

/// Creates the handles of the requisites service pool: it knows the address
/// at which the service is reached. Handles connect on first use.
#[derive(Debug)]
pub struct RequisitesServiceManager {
    addr: String,
}

impl RequisitesServiceManager {
    /// The address at which the service is reached.
    pub closed spec fn address(&self) -> Seq<char> {
        self.addr@
    }

    /// A manager for the service at `addr`.
    pub fn new(addr: String) -> (manager: RequisitesServiceManager)
        ensures
            manager.address() == addr@,
    {
        RequisitesServiceManager { addr }
    }

    /// The address at which the service is reached.
    pub fn addr(&self) -> (addr: &str)
        ensures
            addr@ == self.address(),
    {
        self.addr.as_str()
    }
}

} // verus!
