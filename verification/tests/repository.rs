use authgate::clock::Instant;
use authgate::errors::LibError;
use authgate::repository::merchant::{get_public_key_from_db, get_public_key_from_redis};
use authgate::repository::merchant::{read_public_key_update, set_public_key_in_db, set_public_key_in_redis};
use authgate::repository::merchant::{check_merchant_is_blocked_from_db, check_merchant_is_blocked_from_redis};
use authgate::repository::merchant::{KeyRow, UpdateReply};
use authgate::repository::merchant::{MERCHANT_IS_BLOCKED_QUERY, PUBLIC_KEY_QUERY, PUBLIC_KEY_UPDATE};
use authgate::repository::trader::{check_trader_is_blocked_from_db, check_trader_is_blocked_from_redis};
use authgate::repository::trader::{set_trader_is_blocked_to_redis, TRADER_IS_BLOCKED_QUERY};
use authgate::repository::{cache_flag, is_connection_err, read_cached_flag};
use authgate::repository::{BlockRow, CacheReply, TTL_HOUR};
use authgate::text::{decimal_string, digit_str, join, join3, str_eq};

#[test]
fn statements() {
    assert_eq!(TRADER_IS_BLOCKED_QUERY, "SELECT is_blocked FROM traders WHERE id=$1");
    assert_eq!(MERCHANT_IS_BLOCKED_QUERY, "SELECT is_blocked FROM merchants WHERE id=$1");
    assert_eq!(PUBLIC_KEY_QUERY, "SELECT public_key FROM merchants WHERE id=$1");
    assert_eq!(PUBLIC_KEY_UPDATE, "UPDATE merchants SET public_key=$1 WHERE id=$2");
    assert_eq!(TTL_HOUR, 3600);
}

#[test]
fn keys() {
    assert_eq!(authgate::repository::trader::is_blocked_key("t1"), "trader:t1:is_blocked");
    assert_eq!(authgate::repository::trader::is_blocked_key(""), "trader::is_blocked");
    assert_eq!(authgate::repository::merchant::is_blocked_key("m:1"), "merchant:m:1:is_blocked");
    assert_eq!(authgate::repository::merchant::public_key_key("m1"), "merchant:m1:public_key");
    assert_eq!(join3("a", "", "c"), "ac");
}

#[test]
fn cached_flag_is_one_or_zero() {
    let value = |text: &str| CacheReply::Value(text.to_string());
    for read in [read_cached_flag, check_trader_is_blocked_from_redis, check_merchant_is_blocked_from_redis] {
        assert_eq!(read(&value("1")), Ok(Some(true)));
        assert_eq!(read(&value("0")), Ok(Some(false)));
        assert_eq!(read(&CacheReply::Missing), Ok(None));
        assert_eq!(read(&CacheReply::Failed), Err(LibError::InternalError));
        for other in ["", "2", "10", "true", "1\n", "٠"] {
            assert_eq!(read(&value(other)), Ok(None), "{:?}", other);
        }
    }
}

#[test]
fn block_rows() {
    for is_blocked in [false, true] {
        assert_eq!(check_trader_is_blocked_from_db(BlockRow::Found(is_blocked)), Ok(is_blocked));
        assert_eq!(check_merchant_is_blocked_from_db(BlockRow::Found(is_blocked)), Ok(is_blocked));
    }
    assert_eq!(check_trader_is_blocked_from_db(BlockRow::NoRows), Err(LibError::TraderNotFound));
    assert_eq!(check_merchant_is_blocked_from_db(BlockRow::NoRows), Err(LibError::MerchantNotFound));
    assert_eq!(check_trader_is_blocked_from_db(BlockRow::Failed), Err(LibError::InternalError));
    assert_eq!(check_merchant_is_blocked_from_db(BlockRow::Failed), Err(LibError::InternalError));
}

#[test]
fn flag_writes() {
    let write = set_trader_is_blocked_to_redis("t1", true);
    assert_eq!((write.key.as_str(), write.value.as_str(), write.ttl_secs), ("trader:t1:is_blocked", "1", Some(3600)));
    let write = set_trader_is_blocked_to_redis("t1", false);
    assert_eq!((write.key.as_str(), write.value.as_str(), write.ttl_secs), ("trader:t1:is_blocked", "0", Some(3600)));
    let write = authgate::repository::merchant::set_trader_is_blocked_to_redis("m1", true);
    assert_eq!((write.key.as_str(), write.value.as_str(), write.ttl_secs), ("merchant:m1:is_blocked", "1", Some(3600)));
    let write = cache_flag("any".to_string(), false);
    assert_eq!((write.key.as_str(), write.value.as_str(), write.ttl_secs), ("any", "0", Some(3600)));
}

#[test]
fn public_key_exchanges() {
    assert_eq!(get_public_key_from_db(KeyRow::Found(Some("PEM".to_string()))), Ok("PEM".to_string()));
    assert_eq!(get_public_key_from_db(KeyRow::Found(Some(String::new()))), Ok(String::new()));
    assert_eq!(get_public_key_from_db(KeyRow::Found(None)), Err(LibError::NotFound));
    assert_eq!(get_public_key_from_db(KeyRow::NoRows), Err(LibError::MerchantNotFound));
    assert_eq!(get_public_key_from_db(KeyRow::Failed), Err(LibError::InternalError));

    assert_eq!(get_public_key_from_redis(CacheReply::Value("PEM".to_string())), Ok(Some("PEM".to_string())));
    assert_eq!(get_public_key_from_redis(CacheReply::Missing), Ok(None));
    assert_eq!(get_public_key_from_redis(CacheReply::Failed), Err(LibError::InternalError));

    let write = set_public_key_in_redis("m1", "PEM");
    assert_eq!((write.key.as_str(), write.value.as_str(), write.ttl_secs), ("merchant:m1:public_key", "PEM", None));

    let statement = set_public_key_in_db("m1", "PEM");
    assert_eq!(statement.sql, "UPDATE merchants SET public_key=$1 WHERE id=$2");
    assert_eq!(statement.params, vec!["PEM".to_string(), "m1".to_string()]);

    assert_eq!(read_public_key_update(UpdateReply::Rows(1)), Ok(()));
    assert_eq!(read_public_key_update(UpdateReply::Rows(2)), Ok(()));
    assert_eq!(read_public_key_update(UpdateReply::Rows(0)), Err(LibError::MerchantNotFound));
    assert_eq!(read_public_key_update(UpdateReply::Failed), Err(LibError::InternalError));
}

#[test]
fn connection_errors_are_told_by_their_text() {
    for text in [
        "connection closed",
        "error connecting to server: Connection refused (os error 111)",
        "broken pipe",
        "operation timed out",
        "timeout",
        "db error: conn reset",
        "violation",
        "io",
    ] {
        assert!(is_connection_err(text), "{:?}", text);
    }
    for text in ["", "syntax error at or near \"FROM\"", "duplicate key value", "Timeout waiting for IO", "CONNECTION", "Broken", "TIME", "i o", "tim e"] {
        assert!(!is_connection_err(text), "{:?}", text);
    }
}

#[test]
fn text_helpers() {
    assert!(str_eq("", ""));
    assert!(str_eq("merchant", "merchant"));
    assert!(!str_eq("merchant", "Merchant"));
    assert!(!str_eq("merchant", "merchan"));
    assert!(!str_eq("é", "e"));
    assert!(str_eq("ключ", "ключ"));
    assert_eq!(decimal_string(0), "0");
    assert_eq!(decimal_string(7), "7");
    assert_eq!(decimal_string(10), "10");
    assert_eq!(decimal_string(429_496_729_400), "429496729400");
    assert_eq!(decimal_string(u64::MAX), "18446744073709551615");
    for digit in 0..10u8 {
        assert_eq!(digit_str(digit), digit.to_string());
    }
    assert_eq!(join(&Vec::new(), ", "), "");
    assert_eq!(join(&vec!["a".to_string()], ", "), "a");
    assert_eq!(join(&vec!["a".to_string(), "".to_string(), "c".to_string()], " AND "), "a AND  AND c");
}

#[test]
fn replay_window() {
    let at = |secs, nanos| Instant { secs, nanos };
    let base = at(1_704_067_200, 0);
    assert!(base.within_replay_window(&base));
    assert!(base.within_replay_window(&at(1_704_067_500, 0)));
    assert!(base.within_replay_window(&at(1_704_066_900, 0)));
    assert!(!base.within_replay_window(&at(1_704_067_500, 1)));
    assert!(!base.within_replay_window(&at(1_704_066_899, 999_999_999)));
    assert!(at(5, 1).within_replay_window(&at(305, 1)));
    assert!(!at(5, 0).within_replay_window(&at(305, 1)));
    assert!(!at(i64::MIN, 0).within_replay_window(&at(i64::MAX, u32::MAX)));
    assert!(!at(i64::MAX, u32::MAX).within_replay_window(&at(i64::MIN, 0)));
    assert_eq!(at(1, 5).to_epoch_nanos(), 1_000_000_005);
    assert_eq!(at(-1, 5).to_epoch_nanos(), -999_999_995);
    assert_eq!(at(i64::MAX, u32::MAX).to_epoch_nanos(), 9_223_372_036_854_775_807i128 * 1_000_000_000 + 4_294_967_295);
}
