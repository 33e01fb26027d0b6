//! Trader operations: whether a trader is blocked.

use vstd::prelude::*;

use crate::repository::Entity;
use crate::use_case::{block_step, resolve_block_status, BlockFacts, BlockStep};

verus! {

/// Decides the next step in resolving whether a trader is blocked. A trader
/// that the store does not know ends the resolution with `TraderNotFound`.
pub fn check_trader_is_blocked(trader_id: &str, facts: &BlockFacts) -> (step: BlockStep)
    ensures
        step@ == block_step(Entity::Trader, trader_id@, facts@),
{
    resolve_block_status(Entity::Trader, trader_id, facts)
}

} // verus!
