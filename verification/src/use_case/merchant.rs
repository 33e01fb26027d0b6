//! Merchant operations: whether a merchant is blocked, which public key it
//! has, and whether a request signature verifies against that key.

use vstd::prelude::*;
use vstd::string::*;

use crate::errors::LibError;
use crate::repository::merchant::{key_row_text, key_write, merchant_public_key_key};
use crate::repository::merchant::{public_key_key, set_public_key_in_redis};
use crate::repository::merchant::{KeyRow, KeyRowView, PUBLIC_KEY_QUERY};
use crate::repository::{text_result, CacheReply, CacheReplyView, CacheWrite, CacheWriteView, Entity};
use crate::use_case::{block_step, resolve_block_status, BlockFacts, BlockStep};

verus! {

/// An RSA public key of the `rsa` crate.
#[verifier::external_type_specification]
#[verifier::external_body]
pub struct ExRsaPublicKey(rsa::RsaPublicKey);

/// A public key together with the PEM text that it was decoded from. Only
/// decoding makes a value of this type, so the key is always the one that
/// the text holds; the text is what stands for the key in contracts.
struct DecodedKey {
    pem: String,
    key: rsa::RsaPublicKey,
}

impl View for DecodedKey {
    type V = Seq<char>;

    closed spec fn view(&self) -> Seq<char> {
        self.pem@
    }
}

/// Whether a text is the PKCS#1 PEM encoding of an RSA public key that the
/// `rsa` crate takes.
pub uninterp spec fn pkcs1_pem_is_key(pem: Seq<char>) -> bool;

/// The bytes that a text in standard base64 (with padding) decodes to, or
/// `None` where the text is not such an encoding.
pub uninterp spec fn base64_decoded(text: Seq<char>) -> Option<Seq<u8>>;

/// The SHA-256 digest of a run of bytes.
pub uninterp spec fn sha256_digest(data: Seq<u8>) -> Seq<u8>;

/// Whether PKCS#1 v1.5 verification with SHA-256 accepts a signature for a
/// digest under the key that a PEM text holds.
pub uninterp spec fn pkcs1v15_accepts(pem: Seq<char>, digest: Seq<u8>, signature: Seq<u8>) -> bool;

/// Wraps `RsaPublicKey::from_pkcs1_pem`: the key that the PEM text holds,
/// kept with a copy of the text, or `None` where decoding fails.
#[verifier::external_body]
fn decode_public_key(pem: &str) -> (decoded: Option<DecodedKey>)
    ensures
        decoded is Some <==> pkcs1_pem_is_key(pem@),
        decoded matches Some(key) ==> key@ == pem@,
{
    match <rsa::RsaPublicKey as rsa::pkcs1::DecodeRsaPublicKey>::from_pkcs1_pem(pem) {
        Ok(key) => Some(DecodedKey { pem: pem.to_string(), key }),
        Err(_) => None,
    }
}

/// Wraps `Engine::decode` of base64's `STANDARD` engine: the decoded bytes,
/// or `None` where the text is rejected.
#[verifier::external_body]
fn decode_base64(text: &str) -> (bytes: Option<Vec<u8>>)
    ensures
        match bytes {
            Some(decoded) => base64_decoded(text@) == Some(decoded@),
            None => base64_decoded(text@) is None,
        },
{
    base64::Engine::decode(&base64::engine::general_purpose::STANDARD, text).ok()
}

/// Wraps `Sha256::digest`: the digest of the bytes.
#[verifier::external_body]
fn sha256(data: &[u8]) -> (digest: Vec<u8>)
    ensures
        digest@ == sha256_digest(data@),
{
    <rsa::sha2::Sha256 as rsa::sha2::Digest>::digest(data).to_vec()
}

/// Wraps `Pkcs1v15Sign::verify` with the padding that `Pkcs1v15Sign::new`
/// makes for SHA-256: whether the signature is accepted for the digest under
/// the key.
#[verifier::external_body]
fn pkcs1v15_verify(key: &DecodedKey, digest: &[u8], signature: &[u8]) -> (accepted: bool)
    ensures
        accepted == pkcs1v15_accepts(key@, digest@, signature@),
{
    let padding = rsa::Pkcs1v15Sign::new::<rsa::sha2::Sha256>();
    rsa::traits::SignatureScheme::verify(padding, &key.key, digest, signature).is_ok()
}

/// What is known so far in the resolution of one public key. Each field is
/// `None` until the exchange that it records has taken place.
#[derive(Debug)]
pub struct KeyFacts {
    /// Whether a cache connection could be acquired.
    pub cache_connected: Option<bool>,
    /// What the cache replied to the read of the key.
    pub cached: Option<CacheReply>,
    /// Whether a store connection could be acquired.
    pub store_connected: Option<bool>,
    /// What the store replied to the query of the key.
    pub row: Option<KeyRow>,
}

/// The facts as mathematical values.
pub struct KeyFactsView {
    pub cache_connected: Option<bool>,
    pub cached: Option<CacheReplyView>,
    pub store_connected: Option<bool>,
    pub row: Option<KeyRowView>,
}

impl View for KeyFacts {
    type V = KeyFactsView;

    open spec fn view(&self) -> KeyFactsView {
        KeyFactsView {
            cache_connected: self.cache_connected,
            cached: match self.cached {
                Some(reply) => Some(reply@),
                None => None,
            },
            store_connected: self.store_connected,
            row: match self.row {
                Some(row) => Some(row@),
                None => None,
            },
        }
    }
}

/// What to do next in the resolution of one public key.
#[derive(Debug)]
pub enum KeyStep {
    /// Acquire a cache connection and record whether that succeeded.
    AcquireCache,
    /// Read this key from the cache and record the reply.
    ReadCache { key: String },
    /// Acquire a store connection and record whether that succeeded.
    AcquireStore,
    /// Run this query with the id as its one parameter and record the reply.
    QueryStore { sql: &'static str, id: String },
    /// The resolution has ended with this key. Where a write is given, send
    /// it to the cache before returning: its outcome changes nothing.
    Done { public_key: Result<String, LibError>, write_back: Option<CacheWrite> },
}

/// A step as mathematical values.
pub enum KeyStepView {
    AcquireCache,
    ReadCache { key: Seq<char> },
    AcquireStore,
    QueryStore { sql: Seq<char>, id: Seq<char> },
    Done { public_key: Result<Seq<char>, LibError>, write_back: Option<CacheWriteView> },
}

impl View for KeyStep {
    type V = KeyStepView;

    open spec fn view(&self) -> KeyStepView {
        match self {
            KeyStep::AcquireCache => KeyStepView::AcquireCache,
            KeyStep::ReadCache { key } => KeyStepView::ReadCache { key: key@ },
            KeyStep::AcquireStore => KeyStepView::AcquireStore,
            KeyStep::QueryStore { sql, id } => KeyStepView::QueryStore { sql: sql@, id: id@ },
            KeyStep::Done { public_key, write_back } => KeyStepView::Done {
                public_key: text_result(*public_key),
                write_back: match write_back {
                    Some(write) => Some(write@),
                    None => None,
                },
            },
        }
    }
}

/// The step that follows once the cache is out of the picture: the store is
/// asked, and where it answers with a key and `refill` holds, the key goes
/// back to the cache.
pub open spec fn key_step_from_store(id: Seq<char>, facts: KeyFactsView, refill: bool) -> KeyStepView {
    match facts.store_connected {
        None => KeyStepView::AcquireStore,
        Some(false) => KeyStepView::Done { public_key: Err(LibError::InternalError), write_back: None },
        Some(true) => match facts.row {
            None => KeyStepView::QueryStore { sql: PUBLIC_KEY_QUERY@, id },
            Some(row) => match key_row_text(row) {
                Ok(public_key) => KeyStepView::Done {
                    public_key: Ok(public_key),
                    write_back: if refill {
                        Some(key_write(id, public_key))
                    } else {
                        None
                    },
                },
                Err(kind) => KeyStepView::Done { public_key: Err(kind), write_back: None },
            },
        },
    }
}

/// The step that the facts call for. Without a cache connection the store
/// decides alone. With one, a cached key ends the resolution at once; a miss
/// or a failed read sends it to the store, whose key then goes back to the
/// cache.
pub open spec fn key_step(id: Seq<char>, facts: KeyFactsView) -> KeyStepView {
    match facts.cache_connected {
        None => KeyStepView::AcquireCache,
        Some(false) => key_step_from_store(id, facts, false),
        Some(true) => match facts.cached {
            None => KeyStepView::ReadCache { key: merchant_public_key_key(id) },
            Some(CacheReplyView::Value(public_key)) => KeyStepView::Done {
                public_key: Ok(public_key),
                write_back: None,
            },
            Some(_) => key_step_from_store(id, facts, true),
        },
    }
}

/// What signature verification returns for a key text, a signature text and
/// the line that was signed.
pub open spec fn signature_verdict(
    public_key: Seq<char>,
    signature: Seq<char>,
    raw_line: Seq<char>,
) -> Result<bool, LibError> {
    if !pkcs1_pem_is_key(public_key) {
        Ok(false)
    } else {
        match base64_decoded(signature) {
            None => Err(LibError::Unauthorized),
            Some(bytes) => Ok(
                pkcs1v15_accepts(
                    public_key,
                    sha256_digest(vstd::utf8::encode_utf8(raw_line)),
                    bytes,
                ),
            ),
        }
    }
}

/// What signature verification returns where the resolution of the key may
/// have failed: the error of the resolution, else the verdict under the key.
pub open spec fn lookup_verdict(
    public_key: Result<Seq<char>, LibError>,
    signature: Seq<char>,
    raw_line: Seq<char>,
) -> Result<bool, LibError> {
    match public_key {
        Ok(pem) => signature_verdict(pem, signature, raw_line),
        Err(kind) => Err(kind),
    }
}

/// What verification returns once the three outside results are in: whether
/// the key text holds a key, whether the signature text decodes, and whether
/// the decoded signature is accepted. A key text that holds no key makes the
/// signature invalid; a signature text that does not decode is unauthorized.
pub open spec fn verdict_of(key_holds: bool, signature_decodes: bool, accepted: bool) -> Result<
    bool,
    LibError,
> {
    if !key_holds {
        Ok(false)
    } else if !signature_decodes {
        Err(LibError::Unauthorized)
    } else {
        Ok(accepted)
    }
}

impl KeyFacts {
    /// The facts of a resolution that has not begun.
    pub fn new() -> (facts: KeyFacts)
        ensures
            facts@ == (KeyFactsView {
                cache_connected: None,
                cached: None,
                store_connected: None,
                row: None,
            }),
    {
        KeyFacts { cache_connected: None, cached: None, store_connected: None, row: None }
    }
}

/// Decides the next step in resolving whether a merchant is blocked. A
/// merchant that the store does not know ends the resolution with
/// `MerchantNotFound`.
pub fn check_merchant_is_blocked(merchant_id: &str, facts: &BlockFacts) -> (step: BlockStep)
    ensures
        step@ == block_step(Entity::Merchant, merchant_id@, facts@),
{
    resolve_block_status(Entity::Merchant, merchant_id, facts)
}

/// Decides the next step of a key resolution once the cache is out of the
/// picture.
fn public_key_from_store(merchant_id: &str, facts: &KeyFacts, refill: bool) -> (step: KeyStep)
    ensures
        step@ == key_step_from_store(merchant_id@, facts@, refill),
{
    match facts.store_connected {
        None => KeyStep::AcquireStore,
        Some(false) => KeyStep::Done { public_key: Err(LibError::InternalError), write_back: None },
        Some(true) => match &facts.row {
            None => KeyStep::QueryStore { sql: PUBLIC_KEY_QUERY, id: String::from_str(merchant_id) },
            Some(KeyRow::Found(Some(public_key))) => {
                let write_back = if refill {
                    Some(set_public_key_in_redis(merchant_id, public_key.as_str()))
                } else {
                    None
                };
                KeyStep::Done { public_key: Ok(public_key.clone()), write_back }
            },
            Some(KeyRow::Found(None)) => KeyStep::Done {
                public_key: Err(LibError::NotFound),
                write_back: None,
            },
            Some(KeyRow::NoRows) => KeyStep::Done {
                public_key: Err(LibError::MerchantNotFound),
                write_back: None,
            },
            Some(KeyRow::Failed) => KeyStep::Done {
                public_key: Err(LibError::InternalError),
                write_back: None,
            },
        },
    }
}

/// Decides the next step in resolving a merchant's public key. A merchant
/// that the store does not know ends the resolution with `MerchantNotFound`,
/// one that has no key with `NotFound`.
pub fn get_public_key(merchant_id: &str, facts: &KeyFacts) -> (step: KeyStep)
    ensures
        step@ == key_step(merchant_id@, facts@),
{
    match facts.cache_connected {
        None => KeyStep::AcquireCache,
        Some(false) => public_key_from_store(merchant_id, facts, false),
        Some(true) => match &facts.cached {
            None => KeyStep::ReadCache { key: public_key_key(merchant_id) },
            Some(CacheReply::Value(public_key)) => KeyStep::Done {
                public_key: Ok(public_key.clone()),
                write_back: None,
            },
            Some(_) => public_key_from_store(merchant_id, facts, true),
        },
    }
}

/// Turns the three outside results of a verification into its verdict.
pub fn signature_outcome(key_holds: bool, signature_decodes: bool, accepted: bool) -> (verdict:
    Result<bool, LibError>)
    ensures
        verdict == verdict_of(key_holds, signature_decodes, accepted),
{
    if !key_holds {
        Ok(false)
    } else if !signature_decodes {
        Err(LibError::Unauthorized)
    } else {
        Ok(accepted)
    }
}

/// Verifies a base64 signature over a line against a PEM-encoded RSA public
/// key, with PKCS#1 v1.5 padding over the SHA-256 digest of the line.
///
/// Every failure of the verification proper gives `Ok(false)`: a key text
/// that holds no key, a signature of the wrong length, a signature that does
/// not match. Only a signature text that is not base64 is an error,
/// `Unauthorized`.
pub fn check_signature(public_key: &str, signature: &str, raw_line: &str) -> (verdict: Result<
    bool,
    LibError,
>)
    ensures
        verdict == signature_verdict(public_key@, signature@, raw_line@),
{
    let key = decode_public_key(public_key);
    let decoded = match &key {
        Some(_) => decode_base64(signature),
        None => None,
    };
    let accepted = match (&key, &decoded) {
        (Some(k), Some(bytes)) => {
            let digest = sha256(raw_line.as_bytes());
            pkcs1v15_verify(k, digest.as_slice(), bytes.as_slice())
        },
        _ => false,
    };
    signature_outcome(key.is_some(), decoded.is_some(), accepted)
}

/// Verifies a signature against the public key that a resolution returned.
/// An error of the resolution is handed on as it is.
pub fn verify_signature(public_key: &Result<String, LibError>, signature: &str, raw_line: &str) -> (verdict:
    Result<bool, LibError>)
    ensures
        verdict == lookup_verdict(text_result(*public_key), signature@, raw_line@),
{
    match public_key {
        Ok(pem) => check_signature(pem.as_str(), signature, raw_line),
        Err(kind) => Err(*kind),
    }
}

/// Verification never fails on a signature text that decodes: whatever the
/// key text and the line are, the verdict is `Ok`.
pub proof fn decodable_signature_gives_verdict(
    public_key: Seq<char>,
    signature: Seq<char>,
    raw_line: Seq<char>,
)
    requires
        base64_decoded(signature) is Some,
    ensures
        signature_verdict(public_key, signature, raw_line) is Ok,
{
}

/// A key text that holds no key makes every signature invalid.
pub proof fn malformed_key_rejects(public_key: Seq<char>, signature: Seq<char>, raw_line: Seq<char>)
    requires
        !pkcs1_pem_is_key(public_key),
    ensures
        signature_verdict(public_key, signature, raw_line) == Ok::<bool, LibError>(false),
{
}

} // verus!
