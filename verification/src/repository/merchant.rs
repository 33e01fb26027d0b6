//! Merchant lookups: the cache keys and store statements of a merchant's
//! block status and public key, and how the replies are read.

use vstd::prelude::*;
use vstd::string::*;

use crate::errors::LibError;
use crate::repository::{cache_flag, cached_flag, flag_write, read_cached_flag};
use crate::repository::{optional_text_result, text_result};
use crate::repository::{BlockRow, CacheReply, CacheReplyView, CacheWrite, CacheWriteView};
use crate::text::join3;

verus! {

/// The query that reads a merchant's block status; its one parameter is the
/// merchant's id.
pub const MERCHANT_IS_BLOCKED_QUERY: &'static str = "SELECT is_blocked FROM merchants WHERE id=$1";

/// The query that reads a merchant's public key; its one parameter is the
/// merchant's id.
pub const PUBLIC_KEY_QUERY: &'static str = "SELECT public_key FROM merchants WHERE id=$1";

/// The statement that stores a merchant's public key; its first parameter is
/// the key and its second the merchant's id.
pub const PUBLIC_KEY_UPDATE: &'static str = "UPDATE merchants SET public_key=$1 WHERE id=$2";

/// The cache key of a merchant's block status: `merchant:{id}:is_blocked`.
pub open spec fn merchant_is_blocked_key(merchant_id: Seq<char>) -> Seq<char> {
    "merchant:"@ + merchant_id + ":is_blocked"@
}

/// The cache key of a merchant's public key: `merchant:{id}:public_key`.
pub open spec fn merchant_public_key_key(merchant_id: Seq<char>) -> Seq<char> {
    "merchant:"@ + merchant_id + ":public_key"@
}

/// What the store replied to the query of a public key.
#[derive(Debug)]
pub enum KeyRow {
    /// One row, whose key column holds this text or is null.
    Found(Option<String>),
    /// No row has the id.
    NoRows,
    /// The query failed.
    Failed,
}

/// A key row as mathematical values.
pub enum KeyRowView {
    Found(Option<Seq<char>>),
    NoRows,
    Failed,
}

impl View for KeyRow {
    type V = KeyRowView;

    open spec fn view(&self) -> KeyRowView {
        match self {
            KeyRow::Found(Some(key)) => KeyRowView::Found(Some(key@)),
            KeyRow::Found(None) => KeyRowView::Found(None),
            KeyRow::NoRows => KeyRowView::NoRows,
            KeyRow::Failed => KeyRowView::Failed,
        }
    }
}

/// What the store replied to the update of a public key.
#[derive(Debug, Clone, Copy, PartialEq, Eq, Structural)]
pub enum UpdateReply {
    /// This many rows were changed.
    Rows(usize),
    /// The statement failed.
    Failed,
}

/// A statement for the store, with its parameters in the order of their
/// placeholders.
#[derive(Debug)]
pub struct StoreStatement {
    pub sql: &'static str,
    pub params: Vec<String>,
}

/// How the store's reply for a merchant's block status is read.
pub open spec fn merchant_row_status(row: BlockRow) -> Result<bool, LibError> {
    match row {
        BlockRow::Found(is_blocked) => Ok(is_blocked),
        BlockRow::NoRows => Err(LibError::MerchantNotFound),
        BlockRow::Failed => Err(LibError::InternalError),
    }
}

/// How the store's reply for a merchant's public key is read.
pub open spec fn key_row_text(row: KeyRowView) -> Result<Seq<char>, LibError> {
    match row {
        KeyRowView::Found(Some(key)) => Ok(key),
        KeyRowView::Found(None) => Err(LibError::NotFound),
        KeyRowView::NoRows => Err(LibError::MerchantNotFound),
        KeyRowView::Failed => Err(LibError::InternalError),
    }
}

/// How the cache's reply for a merchant's public key is read.
pub open spec fn cached_key(reply: CacheReplyView) -> Result<Option<Seq<char>>, LibError> {
    match reply {
        CacheReplyView::Value(key) => Ok(Some(key)),
        CacheReplyView::Missing => Ok(None),
        CacheReplyView::Failed => Err(LibError::InternalError),
    }
}

/// How the store's reply to the update of a public key is read.
pub open spec fn update_outcome(reply: UpdateReply) -> Result<(), LibError> {
    match reply {
        UpdateReply::Rows(changed) => if changed == 0 {
            Err(LibError::MerchantNotFound)
        } else {
            Ok(())
        },
        UpdateReply::Failed => Err(LibError::InternalError),
    }
}

/// The write that caches a merchant's public key, without expiry.
pub open spec fn key_write(merchant_id: Seq<char>, public_key: Seq<char>) -> CacheWriteView {
    CacheWriteView { key: merchant_public_key_key(merchant_id), value: public_key, ttl_secs: None }
}

/// Builds the cache key of a merchant's block status.
pub fn is_blocked_key(merchant_id: &str) -> (key: String)
    ensures
        key@ == merchant_is_blocked_key(merchant_id@),
{
    join3("merchant:", merchant_id, ":is_blocked")
}

/// Builds the cache key of a merchant's public key.
pub fn public_key_key(merchant_id: &str) -> (key: String)
    ensures
        key@ == merchant_public_key_key(merchant_id@),
{
    join3("merchant:", merchant_id, ":public_key")
}

/// Reads the cache's reply for a merchant's block status: a hit gives the
/// status, a miss gives `None`, a failed read is an internal error.
pub fn check_merchant_is_blocked_from_redis(reply: &CacheReply) -> (flag: Result<
    Option<bool>,
    LibError,
>)
    ensures
        flag == cached_flag(reply@),
{
    read_cached_flag(reply)
}

/// Reads the store's reply for a merchant's block status: a row gives the
/// status, no row means that the merchant does not exist, a failed query is
/// an internal error.
pub fn check_merchant_is_blocked_from_db(row: BlockRow) -> (status: Result<bool, LibError>)
    ensures
        status == merchant_row_status(row),
{
    match row {
        BlockRow::Found(is_blocked) => Ok(is_blocked),
        BlockRow::NoRows => Err(LibError::MerchantNotFound),
        BlockRow::Failed => Err(LibError::InternalError),
    }
}

/// Builds the write that caches a merchant's block status for one hour.
pub fn set_trader_is_blocked_to_redis(merchant_id: &str, is_blocked: bool) -> (write: CacheWrite)
    ensures
        write@ == flag_write(merchant_is_blocked_key(merchant_id@), is_blocked),
{
    cache_flag(is_blocked_key(merchant_id), is_blocked)
}

/// Reads the store's reply for a merchant's public key: no row means that
/// the merchant does not exist, a row without a key that the key is not
/// found, a failed query is an internal error.
pub fn get_public_key_from_db(row: KeyRow) -> (key: Result<String, LibError>)
    ensures
        text_result(key) == key_row_text(row@),
{
    match row {
        KeyRow::Found(Some(key)) => Ok(key),
        KeyRow::Found(None) => Err(LibError::NotFound),
        KeyRow::NoRows => Err(LibError::MerchantNotFound),
        KeyRow::Failed => Err(LibError::InternalError),
    }
}

/// Builds the statement that stores a merchant's public key.
pub fn set_public_key_in_db(merchant_id: &str, public_key: &str) -> (statement: StoreStatement)
    ensures
        statement.sql@ == PUBLIC_KEY_UPDATE@,
        statement.params@.len() == 2,
        statement.params@[0]@ == public_key@,
        statement.params@[1]@ == merchant_id@,
{
    let mut params: Vec<String> = Vec::new();
    params.push(String::from_str(public_key));
    params.push(String::from_str(merchant_id));
    StoreStatement { sql: PUBLIC_KEY_UPDATE, params }
}

/// Reads the store's reply to the update of a public key: no changed row
/// means that the merchant does not exist.
pub fn read_public_key_update(reply: UpdateReply) -> (outcome: Result<(), LibError>)
    ensures
        outcome == update_outcome(reply),
{
    match reply {
        UpdateReply::Rows(changed) => if changed == 0 {
            Err(LibError::MerchantNotFound)
        } else {
            Ok(())
        },
        UpdateReply::Failed => Err(LibError::InternalError),
    }
}

/// Reads the cache's reply for a merchant's public key.
pub fn get_public_key_from_redis(reply: CacheReply) -> (key: Result<Option<String>, LibError>)
    ensures
        optional_text_result(key) == cached_key(reply@),
{
    match reply {
        CacheReply::Value(key) => Ok(Some(key)),
        CacheReply::Missing => Ok(None),
        CacheReply::Failed => Err(LibError::InternalError),
    }
}

/// Builds the write that caches a merchant's public key, without expiry.
pub fn set_public_key_in_redis(merchant_id: &str, public_key: &str) -> (write: CacheWrite)
    ensures
        write@ == key_write(merchant_id@, public_key@),
{
    CacheWrite { key: public_key_key(merchant_id), value: String::from_str(public_key), ttl_secs: None }
}

} // verus!
