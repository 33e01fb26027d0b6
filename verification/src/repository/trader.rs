//! Trader lookups: the cache key and the store query of a trader's block
//! status, and how the replies are read.

use vstd::prelude::*;
use vstd::string::*;

use crate::errors::LibError;
use crate::repository::{cache_flag, cached_flag, flag_write, read_cached_flag};
use crate::repository::{BlockRow, CacheReply, CacheWrite};
use crate::text::join3;

verus! {

/// The query that reads a trader's block status; its one parameter is the
/// trader's id.
pub const TRADER_IS_BLOCKED_QUERY: &'static str = "SELECT is_blocked FROM traders WHERE id=$1";

/// The cache key of a trader's block status: `trader:{id}:is_blocked`.
pub open spec fn trader_is_blocked_key(trader_id: Seq<char>) -> Seq<char> {
    "trader:"@ + trader_id + ":is_blocked"@
}

/// How the store's reply for a trader is read.
pub open spec fn trader_row_status(row: BlockRow) -> Result<bool, LibError> {
    match row {
        BlockRow::Found(is_blocked) => Ok(is_blocked),
        BlockRow::NoRows => Err(LibError::TraderNotFound),
        BlockRow::Failed => Err(LibError::InternalError),
    }
}

/// Builds the cache key of a trader's block status.
pub fn is_blocked_key(trader_id: &str) -> (key: String)
    ensures
        key@ == trader_is_blocked_key(trader_id@),
{
    join3("trader:", trader_id, ":is_blocked")
}

/// Reads the cache's reply for a trader's block status: a hit gives the
/// status, a miss gives `None`, a failed read is an internal error.
pub fn check_trader_is_blocked_from_redis(reply: &CacheReply) -> (flag: Result<Option<bool>, LibError>)
    ensures
        flag == cached_flag(reply@),
{
    read_cached_flag(reply)
}

/// Reads the store's reply for a trader's block status: a row gives the
/// status, no row means that the trader does not exist, a failed query is an
/// internal error.
pub fn check_trader_is_blocked_from_db(row: BlockRow) -> (status: Result<bool, LibError>)
    ensures
        status == trader_row_status(row),
{
    match row {
        BlockRow::Found(is_blocked) => Ok(is_blocked),
        BlockRow::NoRows => Err(LibError::TraderNotFound),
        BlockRow::Failed => Err(LibError::InternalError),
    }
}

/// Builds the write that caches a trader's block status for one hour.
pub fn set_trader_is_blocked_to_redis(trader_id: &str, is_blocked: bool) -> (write: CacheWrite)
    ensures
        write@ == flag_write(trader_is_blocked_key(trader_id@), is_blocked),
{
    cache_flag(is_blocked_key(trader_id), is_blocked)
}

} // verus!
