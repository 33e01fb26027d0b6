//! The operations behind the gates: signature verification and the
//! cache-aside resolution of trust state.
//!
//! Resolution is written as a decision over what is known so far. The caller
//! starts with no facts, asks what to do, performs that one exchange with
//! the cache or the store, records the reply and asks again, until the
//! decision is `Done`. The cache is only ever a shortcut: whenever it cannot
//! confirm a status, the store is asked.

use vstd::prelude::*;
use vstd::string::*;

use crate::errors::LibError;
use crate::repository::merchant::{check_merchant_is_blocked_from_db, MERCHANT_IS_BLOCKED_QUERY};
use crate::repository::trader::{check_trader_is_blocked_from_db, TRADER_IS_BLOCKED_QUERY};
use crate::repository::{block_key, block_query, cached_flag, flag_write};
use crate::repository::{read_cached_flag, row_status};
use crate::repository::{BlockRow, CacheReply, CacheReplyView, CacheWrite, CacheWriteView, Entity};

pub mod kafka;
pub mod merchant;
pub mod model;
pub mod trader;

verus! {

/// What is known so far in the resolution of one block status. Each field
/// is `None` until the exchange that it records has taken place.
#[derive(Debug)]
pub struct BlockFacts {
    /// Whether a cache connection could be acquired.
    pub cache_connected: Option<bool>,
    /// What the cache replied to the read of the status.
    pub cached: Option<CacheReply>,
    /// Whether a store connection could be acquired.
    pub store_connected: Option<bool>,
    /// What the store replied to the query of the status.
    pub row: Option<BlockRow>,
}

/// The facts as mathematical values.
pub struct BlockFactsView {
    pub cache_connected: Option<bool>,
    pub cached: Option<CacheReplyView>,
    pub store_connected: Option<bool>,
    pub row: Option<BlockRow>,
}

impl View for BlockFacts {
    type V = BlockFactsView;

    open spec fn view(&self) -> BlockFactsView {
        BlockFactsView {
            cache_connected: self.cache_connected,
            cached: match self.cached {
                Some(reply) => Some(reply@),
                None => None,
            },
            store_connected: self.store_connected,
            row: self.row,
        }
    }
}

/// What to do next in the resolution of one block status.
#[derive(Debug)]
pub enum BlockStep {
    /// Acquire a cache connection and record whether that succeeded.
    AcquireCache,
    /// Read this key from the cache and record the reply.
    ReadCache { key: String },
    /// Acquire a store connection and record whether that succeeded.
    AcquireStore,
    /// Run this query with the id as its one parameter and record the reply.
    QueryStore { sql: &'static str, id: String },
    /// The resolution has ended with this status. Where a backfill is given,
    /// hand it to the background runner: its outcome changes nothing.
    Done { status: Result<bool, LibError>, backfill: Option<CacheWrite> },
}

/// A step as mathematical values.
pub enum BlockStepView {
    AcquireCache,
    ReadCache { key: Seq<char> },
    AcquireStore,
    QueryStore { sql: Seq<char>, id: Seq<char> },
    Done { status: Result<bool, LibError>, backfill: Option<CacheWriteView> },
}

impl View for BlockStep {
    type V = BlockStepView;

    open spec fn view(&self) -> BlockStepView {
        match self {
            BlockStep::AcquireCache => BlockStepView::AcquireCache,
            BlockStep::ReadCache { key } => BlockStepView::ReadCache { key: key@ },
            BlockStep::AcquireStore => BlockStepView::AcquireStore,
            BlockStep::QueryStore { sql, id } => BlockStepView::QueryStore { sql: sql@, id: id@ },
            BlockStep::Done { status, backfill } => BlockStepView::Done {
                status: *status,
                backfill: match backfill {
                    Some(write) => Some(write@),
                    None => None,
                },
            },
        }
    }
}

/// The step that follows once the cache is out of the picture: the store is
/// asked, and where it answers with a status and `refill` holds, the status
/// goes back to the cache.
pub open spec fn block_step_from_store(
    entity: Entity,
    id: Seq<char>,
    facts: BlockFactsView,
    refill: bool,
) -> BlockStepView {
    match facts.store_connected {
        None => BlockStepView::AcquireStore,
        Some(false) => BlockStepView::Done { status: Err(LibError::InternalError), backfill: None },
        Some(true) => match facts.row {
            None => BlockStepView::QueryStore { sql: block_query(entity), id },
            Some(row) => match row_status(entity, row) {
                Ok(is_blocked) => BlockStepView::Done {
                    status: Ok(is_blocked),
                    backfill: if refill {
                        Some(flag_write(block_key(entity, id), is_blocked))
                    } else {
                        None
                    },
                },
                Err(kind) => BlockStepView::Done { status: Err(kind), backfill: None },
            },
        },
    }
}

/// The step that the facts call for. Without a cache connection the store
/// decides alone. With one, a cached status ends the resolution at once; a
/// miss or a failed read sends it to the store, whose status then goes back
/// to the cache.
pub open spec fn block_step(entity: Entity, id: Seq<char>, facts: BlockFactsView) -> BlockStepView {
    match facts.cache_connected {
        None => BlockStepView::AcquireCache,
        Some(false) => block_step_from_store(entity, id, facts, false),
        Some(true) => match facts.cached {
            None => BlockStepView::ReadCache { key: block_key(entity, id) },
            Some(reply) => match cached_flag(reply) {
                Ok(Some(is_blocked)) => BlockStepView::Done { status: Ok(is_blocked), backfill: None },
                _ => block_step_from_store(entity, id, facts, true),
            },
        },
    }
}

impl BlockFacts {
    /// The facts of a resolution that has not begun.
    pub fn new() -> (facts: BlockFacts)
        ensures
            facts@ == (BlockFactsView {
                cache_connected: None,
                cached: None,
                store_connected: None,
                row: None,
            }),
    {
        BlockFacts { cache_connected: None, cached: None, store_connected: None, row: None }
    }
}

/// Builds the cache key of a principal's block status.
pub fn block_status_key(entity: Entity, id: &str) -> (key: String)
    ensures
        key@ == block_key(entity, id@),
{
    match entity {
        Entity::Trader => crate::repository::trader::is_blocked_key(id),
        Entity::Merchant => crate::repository::merchant::is_blocked_key(id),
    }
}

/// Decides the next step once the cache is out of the picture.
fn resolve_from_store(entity: Entity, id: &str, facts: &BlockFacts, refill: bool) -> (step: BlockStep)
    ensures
        step@ == block_step_from_store(entity, id@, facts@, refill),
{
    match facts.store_connected {
        None => BlockStep::AcquireStore,
        Some(false) => BlockStep::Done { status: Err(LibError::InternalError), backfill: None },
        Some(true) => match facts.row {
            None => {
                let sql = match entity {
                    Entity::Trader => TRADER_IS_BLOCKED_QUERY,
                    Entity::Merchant => MERCHANT_IS_BLOCKED_QUERY,
                };
                BlockStep::QueryStore { sql, id: String::from_str(id) }
            },
            Some(row) => {
                let status = match entity {
                    Entity::Trader => check_trader_is_blocked_from_db(row),
                    Entity::Merchant => check_merchant_is_blocked_from_db(row),
                };
                match status {
                    Ok(is_blocked) => {
                        let backfill = if refill {
                            Some(
                                crate::repository::cache_flag(
                                    block_status_key(entity, id),
                                    is_blocked,
                                ),
                            )
                        } else {
                            None
                        };
                        BlockStep::Done { status: Ok(is_blocked), backfill }
                    },
                    Err(kind) => BlockStep::Done { status: Err(kind), backfill: None },
                }
            },
        },
    }
}

/// Decides the next step in resolving whether a principal is blocked.
pub fn resolve_block_status(entity: Entity, id: &str, facts: &BlockFacts) -> (step: BlockStep)
    ensures
        step@ == block_step(entity, id@, facts@),
{
    match facts.cache_connected {
        None => BlockStep::AcquireCache,
        Some(false) => resolve_from_store(entity, id, facts, false),
        Some(true) => match &facts.cached {
            None => BlockStep::ReadCache { key: block_status_key(entity, id) },
            Some(reply) => match read_cached_flag(reply) {
                Ok(Some(is_blocked)) => BlockStep::Done { status: Ok(is_blocked), backfill: None },
                _ => resolve_from_store(entity, id, facts, true),
            },
        },
    }
}

} // verus!
