//! What is asked of the key-value cache and of the relational store, and how
//! their replies are read. Nothing here performs the exchange itself: a
//! caller sends what these functions describe and hands the reply back.

use vstd::prelude::*;
use vstd::string::*;

pub mod merchant;
pub mod trader;

verus! {

/// How long a cached block status lives, in seconds: one hour.
pub const TTL_HOUR: u64 = 3600;

/// The kinds of principal whose block status is kept.
#[derive(Debug, Clone, Copy, PartialEq, Eq, Structural)]
pub enum Entity {
    Trader,
    Merchant,
}

/// What the cache replied to the read of one key.
#[derive(Debug)]
pub enum CacheReply {
    /// The key holds this value.
    Value(String),
    /// The key is absent.
    Missing,
    /// The read failed.
    Failed,
}

/// A cache reply as mathematical values.
pub enum CacheReplyView {
    Value(Seq<char>),
    Missing,
    Failed,
}

impl View for CacheReply {
    type V = CacheReplyView;

    open spec fn view(&self) -> CacheReplyView {
        match self {
            CacheReply::Value(text) => CacheReplyView::Value(text@),
            CacheReply::Missing => CacheReplyView::Missing,
            CacheReply::Failed => CacheReplyView::Failed,
        }
    }
}

/// A write to the cache: the value to set under a key, and the time after
/// which the key expires, if any. A write with an expiry is one atomic unit.
#[derive(Debug)]
pub struct CacheWrite {
    pub key: String,
    pub value: String,
    pub ttl_secs: Option<u64>,
}

/// A cache write as mathematical values.
pub struct CacheWriteView {
    pub key: Seq<char>,
    pub value: Seq<char>,
    pub ttl_secs: Option<u64>,
}

impl View for CacheWrite {
    type V = CacheWriteView;

    open spec fn view(&self) -> CacheWriteView {
        CacheWriteView { key: self.key@, value: self.value@, ttl_secs: self.ttl_secs }
    }
}

/// What the store replied to the query of a block status.
#[derive(Debug, Clone, Copy, PartialEq, Eq, Structural)]
pub enum BlockRow {
    /// One row, with this status.
    Found(bool),
    /// No row has the id.
    NoRows,
    /// The query failed.
    Failed,
}

/// The characters of a text result.
pub open spec fn text_result(result: Result<String, crate::errors::LibError>) -> Result<
    Seq<char>,
    crate::errors::LibError,
> {
    match result {
        Ok(text) => Ok(text@),
        Err(kind) => Err(kind),
    }
}

/// The characters of an optional text result.
pub open spec fn optional_text_result(
    result: Result<Option<String>, crate::errors::LibError>,
) -> Result<Option<Seq<char>>, crate::errors::LibError> {
    match result {
        Ok(Some(text)) => Ok(Some(text@)),
        Ok(None) => Ok(None),
        Err(kind) => Err(kind),
    }
}

/// The cached text of a block status: `1` for blocked, `0` for not blocked.
pub open spec fn flag_text(is_blocked: bool) -> Seq<char> {
    if is_blocked {
        "1"@
    } else {
        "0"@
    }
}

/// The block status that a cached text stands for: `1` and `0` are the two
/// statuses, any other text is none.
pub open spec fn flag_of_text(text: Seq<char>) -> Option<bool> {
    if text == "1"@ {
        Some(true)
    } else if text == "0"@ {
        Some(false)
    } else {
        None
    }
}

/// How the reply to a cached block status is read: a failed read is an
/// internal error; `1` and `0` are hits; an absent key and any other value
/// are misses.
pub open spec fn cached_flag(reply: CacheReplyView) -> Result<Option<bool>, crate::errors::LibError> {
    match reply {
        CacheReplyView::Value(text) => Ok(flag_of_text(text)),
        CacheReplyView::Missing => Ok(None),
        CacheReplyView::Failed => Err(crate::errors::LibError::InternalError),
    }
}

/// The two cached texts differ, and each stands for its own status.
pub proof fn flag_text_round_trip(is_blocked: bool)
    ensures
        flag_of_text(flag_text(is_blocked)) == Some(is_blocked),
{
    reveal_strlit("1");
    reveal_strlit("0");
    assert("1"@[0] != "0"@[0]);
}

/// Reads the reply to a cached block status.
pub fn read_cached_flag(reply: &CacheReply) -> (flag: Result<Option<bool>, crate::errors::LibError>)
    ensures
        flag == cached_flag(reply@),
{
    match reply {
        CacheReply::Value(text) => {
            if crate::text::str_eq(text.as_str(), "1") {
                Ok(Some(true))
            } else if crate::text::str_eq(text.as_str(), "0") {
                Ok(Some(false))
            } else {
                Ok(None)
            }
        },
        CacheReply::Missing => Ok(None),
        CacheReply::Failed => Err(crate::errors::LibError::InternalError),
    }
}

/// The write that caches a block status under a key for one hour.
pub open spec fn flag_write(key: Seq<char>, is_blocked: bool) -> CacheWriteView {
    CacheWriteView { key, value: flag_text(is_blocked), ttl_secs: Some(TTL_HOUR) }
}

/// Builds the write that caches a block status under a key for one hour.
pub fn cache_flag(key: String, is_blocked: bool) -> (write: CacheWrite)
    ensures
        write@ == flag_write(key@, is_blocked),
{
    let value = if is_blocked {
        String::from_str("1")
    } else {
        String::from_str("0")
    };
    CacheWrite { key, value, ttl_secs: Some(TTL_HOUR) }
}

/// The marks by which the text of a store error shows a lost connection or
/// a timeout.
pub open spec fn connection_marks() -> Seq<Seq<char>> {
    seq!["connection"@, "broken"@, "time"@, "timed"@, "conn"@, "io"@]
}

/// Whether the text of a store error shows a lost connection or a timeout:
/// it holds one of the marks.
pub open spec fn shows_connection_error(message: Seq<char>) -> bool {
    exists|i: int|
        0 <= i < connection_marks().len() && crate::text::has_substring(
            message,
            #[trigger] connection_marks()[i],
        )
}

/// Tests whether the text of a store error shows a lost connection or a
/// timeout, so that the call is worth another attempt.
pub fn is_connection_err(message: &str) -> (transient: bool)
    ensures
        transient == shows_connection_error(message@),
{
    let found = crate::text::str_contains(message, "connection") || crate::text::str_contains(
        message,
        "broken",
    ) || crate::text::str_contains(message, "time") || crate::text::str_contains(message, "timed")
        || crate::text::str_contains(message, "conn") || crate::text::str_contains(message, "io");
    proof {
        let marks = connection_marks();
        assert(marks[0] == "connection"@);
        assert(marks[1] == "broken"@);
        assert(marks[2] == "time"@);
        assert(marks[3] == "timed"@);
        assert(marks[4] == "conn"@);
        assert(marks[5] == "io"@);
    }
    found
}

/// The cache key of a principal's block status.
pub open spec fn block_key(entity: Entity, id: Seq<char>) -> Seq<char> {
    match entity {
        Entity::Trader => trader::trader_is_blocked_key(id),
        Entity::Merchant => merchant::merchant_is_blocked_key(id),
    }
}

/// The query that reads a principal's block status.
pub open spec fn block_query(entity: Entity) -> Seq<char> {
    match entity {
        Entity::Trader => trader::TRADER_IS_BLOCKED_QUERY@,
        Entity::Merchant => merchant::MERCHANT_IS_BLOCKED_QUERY@,
    }
}

/// How the store's reply for a principal's block status is read: no row
/// means that the principal does not exist, with the error kind of its own
/// entity.
pub open spec fn row_status(entity: Entity, row: BlockRow) -> Result<bool, crate::errors::LibError> {
    match entity {
        Entity::Trader => trader::trader_row_status(row),
        Entity::Merchant => merchant::merchant_row_status(row),
    }
}

} // verus!
