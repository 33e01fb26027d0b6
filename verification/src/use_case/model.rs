//! A model of the cache and the store, against which resolution is run to
//! the end. It states what resolution returns in every state of the two, and
//! that a repeated resolution is answered by the cache alone.

use vstd::prelude::*;

use crate::errors::LibError;
use crate::repository::{block_key, flag_of_text, flag_text, flag_text_round_trip};
use crate::repository::{flag_write, row_status};
use crate::repository::{BlockRow, CacheReplyView, CacheWriteView, Entity};
use crate::repository::merchant::{key_row_text, key_write, merchant_public_key_key, KeyRowView};
use crate::middlewares::{merchant_claims_gate, signed_gate, trader_gate};
use crate::middlewares::{GateStepView, SignedRequestView, SignedStepView};
use crate::models::ClaimsView;
use crate::use_case::merchant::{key_step, lookup_verdict, KeyFactsView, KeyStepView};
use crate::use_case::{block_step, BlockFactsView, BlockStepView};

verus! {

/// What the store holds of one merchant.
pub struct MerchantRecord {
    pub is_blocked: bool,
    pub public_key: Option<Seq<char>>,
}

/// A state of the cache and the store.
pub struct TrustWorld {
    /// Whether a cache connection can be acquired.
    pub cache_reachable: bool,
    /// Whether reads of the cache succeed.
    pub cache_readable: bool,
    /// What the cache holds.
    pub cache: Map<Seq<char>, Seq<char>>,
    /// Whether a store connection can be acquired.
    pub store_reachable: bool,
    /// Whether queries of the store succeed.
    pub store_answers: bool,
    /// The block status of each trader that the store knows.
    pub traders: Map<Seq<char>, bool>,
    /// The record of each merchant that the store knows.
    pub merchants: Map<Seq<char>, MerchantRecord>,
}

impl TrustWorld {
    /// What the cache replies to the read of a key.
    pub open spec fn cache_reply(self, key: Seq<char>) -> CacheReplyView {
        if !self.cache_readable {
            CacheReplyView::Failed
        } else if self.cache.contains_key(key) {
            CacheReplyView::Value(self.cache[key])
        } else {
            CacheReplyView::Missing
        }
    }

    /// What the store replies to the query of a block status.
    pub open spec fn block_row(self, entity: Entity, id: Seq<char>) -> BlockRow {
        if !self.store_answers {
            BlockRow::Failed
        } else {
            match entity {
                Entity::Trader => if self.traders.contains_key(id) {
                    BlockRow::Found(self.traders[id])
                } else {
                    BlockRow::NoRows
                },
                Entity::Merchant => if self.merchants.contains_key(id) {
                    BlockRow::Found(self.merchants[id].is_blocked)
                } else {
                    BlockRow::NoRows
                },
            }
        }
    }

    /// What the store replies to the query of a merchant's public key.
    pub open spec fn key_row(self, id: Seq<char>) -> KeyRowView {
        if !self.store_answers {
            KeyRowView::Failed
        } else if self.merchants.contains_key(id) {
            KeyRowView::Found(self.merchants[id].public_key)
        } else {
            KeyRowView::NoRows
        }
    }

    /// The public key that the cache holds for a merchant, if it holds one:
    /// the cache is reachable and readable and has the merchant's entry.
    pub open spec fn cached_public_key(self, id: Seq<char>) -> Option<Seq<char>> {
        if self.cache_reachable && self.cache_readable && self.cache.contains_key(
            merchant_public_key_key(id),
        ) {
            Some(self.cache[merchant_public_key_key(id)])
        } else {
            None
        }
    }

    /// The status that the cache confirms for a principal, if it confirms
    /// one: the cache is reachable and readable and holds `1` or `0`.
    pub open spec fn confirmed(self, entity: Entity, id: Seq<char>) -> Option<bool> {
        if self.cache_reachable && self.cache_readable && self.cache.contains_key(
            block_key(entity, id),
        ) {
            flag_of_text(self.cache[block_key(entity, id)])
        } else {
            None
        }
    }

    /// The state after a cache write has taken effect, with the cache
    /// reachable and readable. A write that is `None` changes nothing else.
    pub open spec fn with_cache_written(self, write: Option<CacheWriteView>) -> TrustWorld {
        TrustWorld {
            cache_reachable: true,
            cache_readable: true,
            cache: match write {
                Some(w) => self.cache.insert(w.key, w.value),
                None => self.cache,
            },
            ..self
        }
    }

    /// The state with another store in place of this one.
    pub open spec fn with_store_of(self, other: TrustWorld) -> TrustWorld {
        TrustWorld {
            store_reachable: other.store_reachable,
            store_answers: other.store_answers,
            traders: other.traders,
            merchants: other.merchants,
            ..self
        }
    }
}

/// The facts of a resolution that has not begun.
pub open spec fn no_block_facts() -> BlockFactsView {
    BlockFactsView { cache_connected: None, cached: None, store_connected: None, row: None }
}

/// The facts after the exchange that they call for has taken place in a
/// state of the cache and the store. Facts that call for nothing stay.
pub open spec fn block_facts_after(
    world: TrustWorld,
    entity: Entity,
    id: Seq<char>,
    facts: BlockFactsView,
) -> BlockFactsView {
    match block_step(entity, id, facts) {
        BlockStepView::AcquireCache => BlockFactsView {
            cache_connected: Some(world.cache_reachable),
            ..facts
        },
        BlockStepView::ReadCache { key } => BlockFactsView {
            cached: Some(world.cache_reply(key)),
            ..facts
        },
        BlockStepView::AcquireStore => BlockFactsView {
            store_connected: Some(world.store_reachable),
            ..facts
        },
        BlockStepView::QueryStore { sql, id } => BlockFactsView {
            row: Some(world.block_row(entity, id)),
            ..facts
        },
        BlockStepView::Done { status, backfill } => facts,
    }
}

/// The facts after as many exchanges as `rounds`.
pub open spec fn block_facts_settled(
    world: TrustWorld,
    entity: Entity,
    id: Seq<char>,
    facts: BlockFactsView,
    rounds: nat,
) -> BlockFactsView
    decreases rounds,
{
    if rounds == 0 {
        facts
    } else {
        block_facts_settled(
            world,
            entity,
            id,
            block_facts_after(world, entity, id, facts),
            (rounds - 1) as nat,
        )
    }
}

/// The facts at the end of a resolution that starts with none: four
/// exchanges are the most that one resolution makes.
pub open spec fn block_facts_at_end(world: TrustWorld, entity: Entity, id: Seq<char>) -> BlockFactsView {
    block_facts_settled(world, entity, id, no_block_facts(), 4)
}

/// The last step of a resolution.
pub open spec fn block_resolution(world: TrustWorld, entity: Entity, id: Seq<char>) -> BlockStepView {
    block_step(entity, id, block_facts_at_end(world, entity, id))
}

/// Whether a resolution turned to the store at all.
pub open spec fn store_was_asked(facts: BlockFactsView) -> bool {
    facts.store_connected is Some || facts.row is Some
}

/// What a resolution returns, stated outright: the status that the cache
/// confirms; else, where the store is out of reach, an internal error; else
/// what the store's reply stands for. A status from the store goes back to
/// the cache where a cache connection was at hand.
pub open spec fn block_outcome(world: TrustWorld, entity: Entity, id: Seq<char>) -> BlockStepView {
    match world.confirmed(entity, id) {
        Some(is_blocked) => BlockStepView::Done { status: Ok(is_blocked), backfill: None },
        None => if !world.store_reachable {
            BlockStepView::Done { status: Err(LibError::InternalError), backfill: None }
        } else {
            match row_status(entity, world.block_row(entity, id)) {
                Ok(is_blocked) => BlockStepView::Done {
                    status: Ok(is_blocked),
                    backfill: if world.cache_reachable {
                        Some(flag_write(block_key(entity, id), is_blocked))
                    } else {
                        None
                    },
                },
                Err(kind) => BlockStepView::Done { status: Err(kind), backfill: None },
            }
        },
    }
}

/// Every resolution ends within four exchanges, with the outcome stated
/// above, and it turns to the store exactly when the cache confirms no
/// status.
pub proof fn resolution_ends(world: TrustWorld, entity: Entity, id: Seq<char>)
    ensures
        block_resolution(world, entity, id) == block_outcome(world, entity, id),
        block_resolution(world, entity, id) is Done,
        store_was_asked(block_facts_at_end(world, entity, id)) <==> world.confirmed(entity, id)
            is None,
{
    reveal_with_fuel(block_facts_settled, 5);
    let f0 = no_block_facts();
    let f1 = block_facts_after(world, entity, id, f0);
    let f2 = block_facts_after(world, entity, id, f1);
    let f3 = block_facts_after(world, entity, id, f2);
    let f4 = block_facts_after(world, entity, id, f3);
    assert(block_facts_at_end(world, entity, id) == f4);
}

/// The cache alone answers where it confirms a status: the resolution
/// returns that status and the store is not asked, whatever the store holds
/// and whether or not it can be reached.
pub proof fn confirmed_status_skips_store(
    world: TrustWorld,
    entity: Entity,
    id: Seq<char>,
    is_blocked: bool,
)
    requires
        world.confirmed(entity, id) == Some(is_blocked),
    ensures
        block_resolution(world, entity, id) == (BlockStepView::Done {
            status: Ok(is_blocked),
            backfill: None,
        }),
        !store_was_asked(block_facts_at_end(world, entity, id)),
{
    resolution_ends(world, entity, id);
}

/// Resolution is idempotent. Where a first resolution had a cache
/// connection and returned a status, a second one, made while the entry that
/// the first found or wrote is still in the cache, returns the same status
/// without asking the store, whatever has become of the store meanwhile.
pub proof fn repeated_resolution_skips_store(
    world: TrustWorld,
    later_store: TrustWorld,
    entity: Entity,
    id: Seq<char>,
    is_blocked: bool,
)
    requires
        world.cache_reachable,
        block_resolution(world, entity, id) matches BlockStepView::Done { status, backfill }
            && status == Ok::<bool, LibError>(is_blocked),
    ensures
        ({
            let backfill = block_resolution(world, entity, id)->Done_backfill;
            let later = world.with_cache_written(backfill).with_store_of(later_store);
            &&& block_resolution(later, entity, id) == (BlockStepView::Done {
                status: Ok(is_blocked),
                backfill: None,
            })
            &&& !store_was_asked(block_facts_at_end(later, entity, id))
        }),
{
    resolution_ends(world, entity, id);
    flag_text_round_trip(is_blocked);
    let backfill = block_resolution(world, entity, id)->Done_backfill;
    let later = world.with_cache_written(backfill).with_store_of(later_store);
    let key = block_key(entity, id);
    match world.confirmed(entity, id) {
        Some(confirmed) => {
            assert(backfill is None);
            assert(later.cache == world.cache);
            assert(later.confirmed(entity, id) == Some(is_blocked));
        },
        None => {
            assert(backfill == Some(flag_write(key, is_blocked)));
            assert(later.cache == world.cache.insert(key, flag_text(is_blocked)));
            assert(later.cache.contains_key(key));
            assert(later.cache[key] == flag_text(is_blocked));
            assert(later.confirmed(entity, id) == Some(is_blocked));
        },
    }
    confirmed_status_skips_store(later, entity, id, is_blocked);
}

/// The cache never stands in for the store: a status that the cache does
/// not confirm is the one that the store's reply stands for, and it is an
/// error where the store cannot be asked. An absent or unreadable entry is
/// never read as "not blocked".
pub proof fn unconfirmed_status_comes_from_store(world: TrustWorld, entity: Entity, id: Seq<char>)
    requires
        world.confirmed(entity, id) is None,
    ensures
        block_resolution(world, entity, id)->Done_status == (if world.store_reachable {
            row_status(entity, world.block_row(entity, id))
        } else {
            Err(LibError::InternalError)
        }),
{
    resolution_ends(world, entity, id);
}

/// The facts of a key resolution that has not begun.
pub open spec fn no_key_facts() -> KeyFactsView {
    KeyFactsView { cache_connected: None, cached: None, store_connected: None, row: None }
}

/// The facts of a key resolution after the exchange that they call for has
/// taken place in a state of the cache and the store.
pub open spec fn key_facts_after(world: TrustWorld, id: Seq<char>, facts: KeyFactsView) -> KeyFactsView {
    match key_step(id, facts) {
        KeyStepView::AcquireCache => KeyFactsView {
            cache_connected: Some(world.cache_reachable),
            ..facts
        },
        KeyStepView::ReadCache { key } => KeyFactsView {
            cached: Some(world.cache_reply(key)),
            ..facts
        },
        KeyStepView::AcquireStore => KeyFactsView {
            store_connected: Some(world.store_reachable),
            ..facts
        },
        KeyStepView::QueryStore { sql, id } => KeyFactsView { row: Some(world.key_row(id)), ..facts },
        KeyStepView::Done { public_key, write_back } => facts,
    }
}

/// The facts of a key resolution after as many exchanges as `rounds`.
pub open spec fn key_facts_settled(
    world: TrustWorld,
    id: Seq<char>,
    facts: KeyFactsView,
    rounds: nat,
) -> KeyFactsView
    decreases rounds,
{
    if rounds == 0 {
        facts
    } else {
        key_facts_settled(world, id, key_facts_after(world, id, facts), (rounds - 1) as nat)
    }
}

/// The last step of a key resolution that starts with no facts.
pub open spec fn key_resolution(world: TrustWorld, id: Seq<char>) -> KeyStepView {
    key_step(id, key_facts_settled(world, id, no_key_facts(), 4))
}

/// What a key resolution returns, stated outright: the key that the cache
/// holds; else, where the store is out of reach, an internal error; else
/// what the store's reply stands for. A key from the store goes back to the
/// cache where a cache connection was at hand.
pub open spec fn key_outcome(world: TrustWorld, id: Seq<char>) -> KeyStepView {
    match world.cached_public_key(id) {
        Some(public_key) => KeyStepView::Done { public_key: Ok(public_key), write_back: None },
        None => if !world.store_reachable {
            KeyStepView::Done { public_key: Err(LibError::InternalError), write_back: None }
        } else {
            match key_row_text(world.key_row(id)) {
                Ok(public_key) => KeyStepView::Done {
                    public_key: Ok(public_key),
                    write_back: if world.cache_reachable {
                        Some(key_write(id, public_key))
                    } else {
                        None
                    },
                },
                Err(kind) => KeyStepView::Done { public_key: Err(kind), write_back: None },
            }
        },
    }
}

/// Every key resolution ends within four exchanges, with the outcome stated
/// above.
pub proof fn key_resolution_ends(world: TrustWorld, id: Seq<char>)
    ensures
        key_resolution(world, id) == key_outcome(world, id),
        key_resolution(world, id) is Done,
{
    reveal_with_fuel(key_facts_settled, 5);
    let f0 = no_key_facts();
    let f1 = key_facts_after(world, id, f0);
    let f2 = key_facts_after(world, id, f1);
    let f3 = key_facts_after(world, id, f2);
    let f4 = key_facts_after(world, id, f3);
    assert(key_facts_settled(world, id, f0, 4) == f4);
}

/// A key that a resolution wrote back is the key that the next resolution
/// returns, from the cache alone.
pub proof fn written_key_is_served(world: TrustWorld, later_store: TrustWorld, id: Seq<char>)
    requires
        key_resolution(world, id) matches KeyStepView::Done { public_key, write_back }
            && write_back is Some,
    ensures
        ({
            let first = key_resolution(world, id);
            let later = world.with_cache_written(first->Done_write_back).with_store_of(later_store);
            key_resolution(later, id) == KeyStepView::Done {
                public_key: first->Done_public_key,
                write_back: None,
            }
        }),
{
    key_resolution_ends(world, id);
    let first = key_resolution(world, id);
    let later = world.with_cache_written(first->Done_write_back).with_store_of(later_store);
    key_resolution_ends(later, id);
    let key = merchant_public_key_key(id);
    assert(later.cache.contains_key(key));
}

/// What the trader gate decides in the end for a token, in a state of the
/// cache and the store: where it asks for a block status, the status is
/// resolved and the decision is taken again with it.
pub open spec fn trader_verdict(
    world: TrustWorld,
    token: Option<Result<ClaimsView, LibError>>,
) -> GateStepView {
    match trader_gate(token, None) {
        GateStepView::CheckBlocked { entity, id } => trader_gate(
            token,
            Some(block_resolution(world, entity, id)->Done_status),
        ),
        decided => decided,
    }
}

/// What the merchant gate decides in the end for verified claims, given
/// their role in lower case, in a state of the cache and the store.
pub open spec fn merchant_verdict(
    world: TrustWorld,
    claims: ClaimsView,
    folded_role: Seq<char>,
) -> GateStepView {
    match merchant_claims_gate(claims, folded_role, None) {
        GateStepView::CheckBlocked { entity, id } => merchant_claims_gate(
            claims,
            folded_role,
            Some(block_resolution(world, entity, id)->Done_status),
        ),
        decided => decided,
    }
}

/// One resolution settles a gate: with the status in hand it allows or
/// denies, and asks for nothing more.
pub proof fn one_lookup_settles(
    world: TrustWorld,
    token: Option<Result<ClaimsView, LibError>>,
    claims: ClaimsView,
    folded_role: Seq<char>,
)
    ensures
        !(trader_verdict(world, token) is CheckBlocked),
        !(merchant_verdict(world, claims, folded_role) is CheckBlocked),
{
}

/// A trader whom the store does not know is denied as not found, and a
/// merchant whom it does not know as forbidden, where the cache confirms
/// nothing and the store answers: never with an internal error.
pub proof fn unknown_principal_is_denied(world: TrustWorld, claims: ClaimsView)
    requires
        claims.impersonated_by is None,
        world.store_reachable,
        world.store_answers,
    ensures
        claims.role == "trader"@ && world.confirmed(Entity::Trader, claims.sub) is None
            && !world.traders.contains_key(claims.sub) ==> trader_verdict(
            world,
            Some(Ok(claims)),
        ) == GateStepView::Deny(LibError::TraderNotFound),
        world.confirmed(Entity::Merchant, claims.sub) is None && !world.merchants.contains_key(
            claims.sub,
        ) ==> merchant_verdict(world, claims, "merchant"@) == GateStepView::Deny(
            LibError::Forbidden,
        ),
{
    resolution_ends(world, Entity::Trader, claims.sub);
    resolution_ends(world, Entity::Merchant, claims.sub);
}

/// With the cache out of reach, the store decides: a trader whom it holds as
/// not blocked passes, and one whom it holds as blocked is unauthorized.
pub proof fn store_decides_without_cache(world: TrustWorld, claims: ClaimsView)
    requires
        claims.role == "trader"@,
        claims.impersonated_by is None,
        !world.cache_reachable,
        world.store_reachable,
        world.store_answers,
        world.traders.contains_key(claims.sub),
    ensures
        trader_verdict(world, Some(Ok(claims))) == if world.traders[claims.sub] {
            GateStepView::Deny(LibError::Unauthorized)
        } else {
            GateStepView::Allow(claims)
        },
        block_resolution(world, Entity::Trader, claims.sub)->Done_backfill is None,
{
    resolution_ends(world, Entity::Trader, claims.sub);
}

/// No trader passes on the strength of a missing, unreadable or malformed
/// cache entry: a trader in whose name no admin acts passes only where the
/// cache confirms "not blocked" or the store holds the trader as not
/// blocked.
pub proof fn pass_is_confirmed(world: TrustWorld, claims: ClaimsView)
    requires
        claims.impersonated_by is None,
        trader_verdict(world, Some(Ok(claims))) is Allow,
    ensures
        world.confirmed(Entity::Trader, claims.sub) == Some(false) || (world.store_reachable
            && world.block_row(Entity::Trader, claims.sub) == BlockRow::Found(false)),
{
    resolution_ends(world, Entity::Trader, claims.sub);
}

/// The verdict on the signature of a signed request, in a state of the
/// cache and the store: the merchant's key is resolved and the signature is
/// verified against it.
pub open spec fn signature_checked(
    world: TrustWorld,
    merchant_id: Seq<char>,
    signature: Seq<char>,
    raw_line: Seq<char>,
) -> Result<bool, LibError> {
    lookup_verdict(key_resolution(world, merchant_id)->Done_public_key, signature, raw_line)
}

/// What is decided in the end on a signed request, in a state of the cache
/// and the store: the signature is verified where that is asked for, then
/// the block status is resolved where that is asked for.
pub open spec fn signed_verdict(world: TrustWorld, request: SignedRequestView) -> SignedStepView {
    match signed_gate(request, None, None) {
        SignedStepView::VerifySignature { merchant_id, signature, raw_line } => {
            let verdict = signature_checked(world, merchant_id, signature, raw_line);
            match signed_gate(request, Some(verdict), None) {
                SignedStepView::CheckBlocked { merchant_id } => signed_gate(
                    request,
                    Some(verdict),
                    Some(block_resolution(world, Entity::Merchant, merchant_id)->Done_status),
                ),
                decided => decided,
            }
        },
        decided => decided,
    }
}

/// A signed request is settled by at most one verification and one
/// resolution. It passes only where the signature that it carries is valid
/// for the line that it stands for, under the key of the merchant that it
/// names, and where that merchant is resolved as not blocked; and then it
/// passes under that merchant's id, with its whole body.
pub proof fn signed_request_passes_on_merit(world: TrustWorld, request: SignedRequestView)
    ensures
        signed_verdict(world, request) is Allow || signed_verdict(world, request) is Deny,
        signed_verdict(world, request) matches SignedStepView::Allow { merchant_id, body } ==> {
            &&& request.merchant_id == Some(merchant_id)
            &&& request.body == Some(body)
            &&& signed_gate(request, None, None) matches SignedStepView::VerifySignature {
                merchant_id: asked,
                signature,
                raw_line,
            } && asked == merchant_id && request.signature == Some(signature) && signature_checked(
                world,
                merchant_id,
                signature,
                raw_line,
            ) == Ok::<bool, LibError>(true)
            &&& block_resolution(world, Entity::Merchant, merchant_id)->Done_status == Ok::<
                bool,
                LibError,
            >(false)
        },
{
}

/// A signed request whose signature does not verify is unauthorized, and
/// one whose merchant has no key on record is denied with the error of the
/// key's resolution: neither reaches the block status.
pub proof fn signed_request_fails_on_signature(
    world: TrustWorld,
    request: SignedRequestView,
    merchant_id: Seq<char>,
    signature: Seq<char>,
    raw_line: Seq<char>,
)
    requires
        signed_gate(request, None, None) == (SignedStepView::VerifySignature {
            merchant_id,
            signature,
            raw_line,
        }),
        signature_checked(world, merchant_id, signature, raw_line) != Ok::<bool, LibError>(true),
    ensures
        signed_verdict(world, request) == SignedStepView::Deny(
            match signature_checked(world, merchant_id, signature, raw_line) {
                Ok(_) => LibError::Unauthorized,
                Err(kind) => kind,
            },
        ),
{
}

} // verus!
