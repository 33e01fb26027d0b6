use std::collections::HashMap;

use authgate::errors::LibError;
use authgate::middlewares::{for_all_users_middleware, only_merchant_middleware, only_trader_middleware};
use authgate::middlewares::GateStep;
use authgate::models::Claims;
use authgate::repository::merchant::KeyRow;
use authgate::repository::{BlockRow, CacheReply, CacheWrite};
use authgate::use_case::merchant::{check_merchant_is_blocked, get_public_key, KeyFacts, KeyStep};
use authgate::use_case::trader::check_trader_is_blocked;
use authgate::use_case::{resolve_block_status, BlockFacts, BlockStep};
use authgate::repository::Entity;

/// A cache and a store in memory, which count what is asked of them.
#[derive(Default)]
struct World {
    cache_down: bool,
    cache_unreadable: bool,
    cache_unwritable: bool,
    cache: HashMap<String, String>,
    store_down: bool,
    store_failing: bool,
    traders: HashMap<String, bool>,
    merchants: HashMap<String, (bool, Option<String>)>,
    cache_reads: usize,
    cache_writes: usize,
    store_queries: usize,
    last_query: Option<(String, String)>,
}

impl World {
    fn read(&mut self, key: &str) -> CacheReply {
        self.cache_reads += 1;
        if self.cache_unreadable {
            CacheReply::Failed
        } else {
            match self.cache.get(key) {
                Some(value) => CacheReply::Value(value.clone()),
                None => CacheReply::Missing,
            }
        }
    }

    /// A best-effort write: its failure is seen by nobody.
    fn write(&mut self, write: Option<CacheWrite>) {
        if let Some(CacheWrite { key, value, .. }) = write {
            self.cache_writes += 1;
            if !self.cache_unwritable {
                self.cache.insert(key, value);
            }
        }
    }

    fn block_row(&mut self, entity: Entity, sql: &str, id: &str) -> BlockRow {
        self.store_queries += 1;
        self.last_query = Some((sql.to_string(), id.to_string()));
        if self.store_failing {
            return BlockRow::Failed;
        }
        let found = match entity {
            Entity::Trader => self.traders.get(id).copied(),
            Entity::Merchant => self.merchants.get(id).map(|m| m.0),
        };
        match found {
            Some(is_blocked) => BlockRow::Found(is_blocked),
            None => BlockRow::NoRows,
        }
    }

    fn key_row(&mut self, sql: &str, id: &str) -> KeyRow {
        self.store_queries += 1;
        self.last_query = Some((sql.to_string(), id.to_string()));
        if self.store_failing {
            return KeyRow::Failed;
        }
        match self.merchants.get(id) {
            Some((_, key)) => KeyRow::Found(key.clone()),
            None => KeyRow::NoRows,
        }
    }

    fn resolve(&mut self, entity: Entity, id: &str) -> Result<bool, LibError> {
        let mut facts = BlockFacts::new();
        for _ in 0..5 {
            let step = match entity {
                Entity::Trader => check_trader_is_blocked(id, &facts),
                Entity::Merchant => check_merchant_is_blocked(id, &facts),
            };
            match step {
                BlockStep::AcquireCache => facts.cache_connected = Some(!self.cache_down),
                BlockStep::ReadCache { key } => facts.cached = Some(self.read(&key)),
                BlockStep::AcquireStore => facts.store_connected = Some(!self.store_down),
                BlockStep::QueryStore { sql, id } => facts.row = Some(self.block_row(entity, sql, &id)),
                BlockStep::Done { status, backfill } => {
                    self.write(backfill);
                    return status;
                }
            }
        }
        panic!("the resolution did not end");
    }

    fn public_key(&mut self, id: &str) -> Result<String, LibError> {
        let mut facts = KeyFacts::new();
        for _ in 0..5 {
            match get_public_key(id, &facts) {
                KeyStep::AcquireCache => facts.cache_connected = Some(!self.cache_down),
                KeyStep::ReadCache { key } => facts.cached = Some(self.read(&key)),
                KeyStep::AcquireStore => facts.store_connected = Some(!self.store_down),
                KeyStep::QueryStore { sql, id } => facts.row = Some(self.key_row(sql, &id)),
                KeyStep::Done { public_key, write_back } => {
                    self.write(write_back);
                    return public_key;
                }
            }
        }
        panic!("the resolution did not end");
    }
}

fn world_with_trader(id: &str, is_blocked: bool) -> World {
    let mut world = World::default();
    world.traders.insert(id.to_string(), is_blocked);
    world
}

fn trader_token(sub: &str) -> Option<Result<Claims, LibError>> {
    Some(Ok(Claims { sub: sub.to_string(), role: "trader".to_string(), exp: 4_102_444_800, impersonated_by: None }))
}

#[test]
fn resolution_starts_with_the_cache() {
    let facts = BlockFacts::new();
    assert!(matches!(check_trader_is_blocked("t1", &facts), BlockStep::AcquireCache));
    assert!(matches!(check_merchant_is_blocked("m1", &facts), BlockStep::AcquireCache));
    assert!(matches!(get_public_key("m1", &KeyFacts::new()), KeyStep::AcquireCache));
}

#[test]
fn resolution_asks_for_the_right_key_and_query() {
    let mut facts = BlockFacts::new();
    facts.cache_connected = Some(true);
    match check_trader_is_blocked("t1", &facts) {
        BlockStep::ReadCache { key } => assert_eq!(key, "trader:t1:is_blocked"),
        other => panic!("{:?}", other),
    }
    match check_merchant_is_blocked("m1", &facts) {
        BlockStep::ReadCache { key } => assert_eq!(key, "merchant:m1:is_blocked"),
        other => panic!("{:?}", other),
    }
    facts.cached = Some(CacheReply::Missing);
    assert!(matches!(check_trader_is_blocked("t1", &facts), BlockStep::AcquireStore));
    facts.store_connected = Some(true);
    match check_trader_is_blocked("t1", &facts) {
        BlockStep::QueryStore { sql, id } => {
            assert_eq!(sql, "SELECT is_blocked FROM traders WHERE id=$1");
            assert_eq!(id, "t1");
        }
        other => panic!("{:?}", other),
    }
    match check_merchant_is_blocked("m1", &facts) {
        BlockStep::QueryStore { sql, id } => {
            assert_eq!(sql, "SELECT is_blocked FROM merchants WHERE id=$1");
            assert_eq!(id, "m1");
        }
        other => panic!("{:?}", other),
    }
}

#[test]
fn repeated_resolution_does_not_query_the_store_again() {
    for is_blocked in [false, true] {
        let mut world = world_with_trader("t1", is_blocked);
        assert_eq!(world.resolve(Entity::Trader, "t1"), Ok(is_blocked));
        assert_eq!(world.store_queries, 1);
        assert_eq!(world.cache_writes, 1);
        assert_eq!(world.cache.get("trader:t1:is_blocked").map(String::as_str), Some(if is_blocked { "1" } else { "0" }));
        for _ in 0..10 {
            assert_eq!(world.resolve(Entity::Trader, "t1"), Ok(is_blocked));
        }
        assert_eq!(world.store_queries, 1);
        assert_eq!(world.cache_writes, 1);
        assert_eq!(world.cache_reads, 11);
    }
}

#[test]
fn repeated_resolution_survives_a_store_outage() {
    let mut world = World::default();
    world.merchants.insert("m1".to_string(), (true, None));
    assert_eq!(world.resolve(Entity::Merchant, "m1"), Ok(true));
    world.store_down = true;
    world.merchants.clear();
    assert_eq!(world.resolve(Entity::Merchant, "m1"), Ok(true));
    assert_eq!(world.store_queries, 1);
}

#[test]
fn cached_status_is_returned_without_the_store() {
    let mut world = World::default();
    world.store_down = true;
    world.cache.insert("trader:t1:is_blocked".to_string(), "1".to_string());
    world.cache.insert("trader:t2:is_blocked".to_string(), "0".to_string());
    assert_eq!(world.resolve(Entity::Trader, "t1"), Ok(true));
    assert_eq!(world.resolve(Entity::Trader, "t2"), Ok(false));
    assert_eq!(world.store_queries, 0);
    assert_eq!(world.cache_writes, 0);
}

#[test]
fn cached_value_other_than_flag_is_a_miss() {
    for value in ["", "true", "false", "2", "01", "1 ", " 0", "yes"] {
        let mut world = world_with_trader("t1", true);
        world.cache.insert("trader:t1:is_blocked".to_string(), value.to_string());
        assert_eq!(world.resolve(Entity::Trader, "t1"), Ok(true), "{:?}", value);
        assert_eq!(world.store_queries, 1);
        assert_eq!(world.cache.get("trader:t1:is_blocked").map(String::as_str), Some("1"));
    }
}

#[test]
fn key_of_another_principal_is_not_used() {
    let mut world = world_with_trader("t1", true);
    world.cache.insert("trader:t2:is_blocked".to_string(), "0".to_string());
    world.cache.insert("merchant:t1:is_blocked".to_string(), "0".to_string());
    assert_eq!(world.resolve(Entity::Trader, "t1"), Ok(true));
    assert_eq!(world.store_queries, 1);
}

#[test]
fn trader_without_row_is_not_found() {
    let mut world = World::default();
    assert_eq!(world.resolve(Entity::Trader, "t404"), Err(LibError::TraderNotFound));
    assert_eq!(world.last_query, Some(("SELECT is_blocked FROM traders WHERE id=$1".to_string(), "t404".to_string())));
    assert_eq!(world.cache_writes, 0);
    assert!(world.cache.is_empty());

    let status = Some(world.resolve(Entity::Trader, "t404"));
    match only_trader_middleware(&trader_token("t404"), &status) {
        GateStep::Deny(kind) => assert_eq!(kind, LibError::TraderNotFound),
        other => panic!("{:?}", other),
    }
    match for_all_users_middleware(&trader_token("t404"), &status) {
        GateStep::Deny(kind) => assert_eq!(kind, LibError::TraderNotFound),
        other => panic!("{:?}", other),
    }
}

#[test]
fn merchant_without_row_is_not_found_and_forbidden_at_its_gate() {
    let mut world = World::default();
    assert_eq!(world.resolve(Entity::Merchant, "m404"), Err(LibError::MerchantNotFound));
    let token = Some(Ok(Claims { sub: "m404".to_string(), role: "merchant".to_string(), exp: 0, impersonated_by: None }));
    match only_merchant_middleware(&token, &Some(Err(LibError::MerchantNotFound))) {
        GateStep::Deny(kind) => assert_eq!(kind, LibError::Forbidden),
        other => panic!("{:?}", other),
    }
}

#[test]
fn unreachable_cache_falls_back_to_the_store() {
    let mut world = world_with_trader("t1", false);
    world.cache_down = true;
    let status = world.resolve(Entity::Trader, "t1");
    assert_eq!(status, Ok(false));
    assert_eq!(world.store_queries, 1);
    // Without a connection there is nothing to read from or write to.
    assert_eq!(world.cache_reads, 0);
    assert_eq!(world.cache_writes, 0);
    match only_trader_middleware(&trader_token("t1"), &Some(status)) {
        GateStep::Allow(claims) => assert_eq!(claims.sub, "t1"),
        other => panic!("{:?}", other),
    }
    // Every further resolution asks the store again.
    assert_eq!(world.resolve(Entity::Trader, "t1"), Ok(false));
    assert_eq!(world.store_queries, 2);
}

#[test]
fn failing_cache_does_not_change_the_answer() {
    let mut world = world_with_trader("t1", false);
    world.cache_unreadable = true;
    world.cache_unwritable = true;
    let status = world.resolve(Entity::Trader, "t1");
    assert_eq!(status, Ok(false));
    assert_eq!(world.store_queries, 1);
    // The write back was attempted and lost; the answer stands.
    assert_eq!(world.cache_writes, 1);
    assert!(world.cache.is_empty());
    assert!(matches!(only_trader_middleware(&trader_token("t1"), &Some(status)), GateStep::Allow(_)));

    let mut blocked = world_with_trader("t1", true);
    blocked.cache_unreadable = true;
    blocked.cache.insert("trader:t1:is_blocked".to_string(), "0".to_string());
    assert_eq!(blocked.resolve(Entity::Trader, "t1"), Ok(true));
}

#[test]
fn stale_or_absent_cache_never_clears_a_blocked_trader() {
    let mut world = world_with_trader("t1", true);
    assert_eq!(world.resolve(Entity::Trader, "t1"), Ok(true));
    world.cache.clear();
    assert_eq!(world.resolve(Entity::Trader, "t1"), Ok(true));
    assert_eq!(world.store_queries, 2);
}

#[test]
fn store_failures_are_internal_errors() {
    let mut world = world_with_trader("t1", false);
    world.store_down = true;
    assert_eq!(world.resolve(Entity::Trader, "t1"), Err(LibError::InternalError));
    assert_eq!(world.store_queries, 0);
    assert_eq!(world.cache_writes, 0);

    let mut world = world_with_trader("t1", false);
    world.store_failing = true;
    assert_eq!(world.resolve(Entity::Trader, "t1"), Err(LibError::InternalError));
    assert_eq!(world.store_queries, 1);
    assert_eq!(world.cache_writes, 0);

    let mut world = world_with_trader("t1", false);
    world.cache_down = true;
    world.store_down = true;
    assert_eq!(world.resolve(Entity::Merchant, "t1"), Err(LibError::InternalError));
}

#[test]
fn backfill_is_a_flag_with_one_hour_to_live() {
    let facts = BlockFacts {
        cache_connected: Some(true),
        cached: Some(CacheReply::Failed),
        store_connected: Some(true),
        row: Some(BlockRow::Found(true)),
    };
    match resolve_block_status(Entity::Merchant, "m1", &facts) {
        BlockStep::Done { status, backfill: Some(write) } => {
            assert_eq!(status, Ok(true));
            assert_eq!(write.key, "merchant:m1:is_blocked");
            assert_eq!(write.value, "1");
            assert_eq!(write.ttl_secs, Some(3600));
        }
        other => panic!("{:?}", other),
    }
    let facts = BlockFacts { row: Some(BlockRow::Found(false)), cached: Some(CacheReply::Missing), ..facts };
    match resolve_block_status(Entity::Trader, "t1", &facts) {
        BlockStep::Done { status, backfill: Some(write) } => {
            assert_eq!(status, Ok(false));
            assert_eq!(write.key, "trader:t1:is_blocked");
            assert_eq!(write.value, "0");
            assert_eq!(write.ttl_secs, Some(3600));
        }
        other => panic!("{:?}", other),
    }
}

#[test]
fn public_key_is_resolved_through_the_cache() {
    let mut world = World::default();
    world.merchants.insert("m1".to_string(), (false, Some("PEM".to_string())));
    assert_eq!(world.public_key("m1"), Ok("PEM".to_string()));
    assert_eq!(world.last_query, Some(("SELECT public_key FROM merchants WHERE id=$1".to_string(), "m1".to_string())));
    assert_eq!(world.cache.get("merchant:m1:public_key").map(String::as_str), Some("PEM"));
    assert_eq!(world.store_queries, 1);
    world.store_down = true;
    assert_eq!(world.public_key("m1"), Ok("PEM".to_string()));
    assert_eq!(world.store_queries, 1);
    assert_eq!(world.cache_writes, 1);
}

#[test]
fn public_key_write_back_has_no_expiry() {
    let facts = KeyFacts {
        cache_connected: Some(true),
        cached: Some(CacheReply::Missing),
        store_connected: Some(true),
        row: Some(KeyRow::Found(Some("PEM".to_string()))),
    };
    match get_public_key("m1", &facts) {
        KeyStep::Done { public_key, write_back: Some(write) } => {
            assert_eq!(public_key, Ok("PEM".to_string()));
            assert_eq!(write.key, "merchant:m1:public_key");
            assert_eq!(write.value, "PEM");
            assert_eq!(write.ttl_secs, None);
        }
        other => panic!("{:?}", other),
    }
    let facts = KeyFacts { cache_connected: Some(false), cached: None, ..facts };
    assert!(matches!(get_public_key("m1", &facts), KeyStep::Done { public_key: Ok(_), write_back: None }));
}

#[test]
fn public_key_errors() {
    let mut world = World::default();
    world.merchants.insert("keyless".to_string(), (false, None));
    assert_eq!(world.public_key("keyless"), Err(LibError::NotFound));
    assert_eq!(world.public_key("m404"), Err(LibError::MerchantNotFound));
    assert_eq!(world.cache_writes, 0);
    world.store_failing = true;
    assert_eq!(world.public_key("keyless"), Err(LibError::InternalError));
    world.store_failing = false;
    world.store_down = true;
    assert_eq!(world.public_key("keyless"), Err(LibError::InternalError));
}

#[test]
fn public_key_with_cache_down_or_failing() {
    let mut world = World::default();
    world.merchants.insert("m1".to_string(), (false, Some("PEM".to_string())));
    world.cache_down = true;
    assert_eq!(world.public_key("m1"), Ok("PEM".to_string()));
    assert_eq!((world.cache_reads, world.cache_writes, world.store_queries), (0, 0, 1));

    let mut world = World::default();
    world.merchants.insert("m1".to_string(), (false, Some("PEM".to_string())));
    world.cache_unreadable = true;
    assert_eq!(world.public_key("m1"), Ok("PEM".to_string()));
    assert_eq!((world.cache_reads, world.cache_writes, world.store_queries), (1, 1, 1));
}
