use authgate::errors::LibError;
use authgate::middlewares::{for_all_users_middleware, merchant_gate_for, only_admin_middleware};
use authgate::middlewares::{only_merchant_middleware, only_trader_middleware, universal_gate_for};
use authgate::middlewares::{verify_jwt, GateStep};
use authgate::models::Claims;
use authgate::repository::Entity;

type Token = Option<Result<Claims, LibError>>;
type Status = Option<Result<bool, LibError>>;

const KINDS: [LibError; 10] = [
    LibError::TraderNotFound,
    LibError::Forbidden,
    LibError::Unauthorized,
    LibError::InternalError,
    LibError::MerchantNotFound,
    LibError::NotFound,
    LibError::NoAvailableRequisites,
    LibError::InsufficientFunds,
    LibError::InvalidAmount,
    LibError::Conflict,
];

fn claims(sub: &str, role: &str, impersonated_by: Option<&str>) -> Claims {
    Claims {
        sub: sub.to_string(),
        role: role.to_string(),
        exp: 4_102_444_800,
        impersonated_by: impersonated_by.map(str::to_string),
    }
}

fn token(sub: &str, role: &str, impersonated_by: Option<&str>) -> Token {
    Some(Ok(claims(sub, role, impersonated_by)))
}

fn every_status() -> Vec<Status> {
    let mut all = vec![None, Some(Ok(false)), Some(Ok(true))];
    all.extend(KINDS.iter().map(|kind| Some(Err(*kind))));
    all
}

/// A short name for a decision: the denial, the subject that passed, or the
/// principal to look up.
fn outcome(step: GateStep) -> String {
    match step {
        GateStep::Allow(claims) => format!("allow {} {} {:?}", claims.sub, claims.role, claims.impersonated_by),
        GateStep::Deny(kind) => format!("deny {:?}", kind),
        GateStep::CheckBlocked { entity, id } => format!("check {:?} {}", entity, id),
    }
}

#[test]
fn verification_failure_is_unauthorized() {
    assert_eq!(verify_jwt(None).err(), Some(LibError::Unauthorized));
    let verified = verify_jwt(Some(claims("t1", "trader", Some("root")))).unwrap();
    assert_eq!(verified.sub, "t1");
    assert_eq!(verified.role, "trader");
    assert_eq!(verified.exp, 4_102_444_800);
    assert_eq!(verified.impersonated_by.as_deref(), Some("root"));
}

#[test]
fn admin_gate_allows_every_admin() {
    for sub in ["a1", "", "root@example.org"] {
        for by in [None, Some("a2")] {
            assert_eq!(
                outcome(only_admin_middleware(&token(sub, "admin", by))),
                format!("allow {} admin {:?}", sub, by.map(str::to_string))
            );
        }
    }
}

#[test]
fn admin_gate_needs_the_exact_role() {
    for role in ["trader", "merchant", "", "Admin", "ADMIN", "admin ", "administrator", "adm"] {
        assert_eq!(outcome(only_admin_middleware(&token("a1", role, None))), "deny Forbidden", "{:?}", role);
    }
}

#[test]
fn gates_without_token() {
    for status in every_status() {
        assert_eq!(outcome(only_trader_middleware(&None, &status)), "deny Unauthorized");
        assert_eq!(outcome(only_merchant_middleware(&None, &status)), "deny Unauthorized");
        assert_eq!(outcome(for_all_users_middleware(&None, &status)), "deny Forbidden");
    }
    assert_eq!(outcome(only_admin_middleware(&None)), "deny Unauthorized");
}

#[test]
fn gates_with_rejected_token() {
    let rejected: Token = Some(verify_jwt(None));
    for status in every_status() {
        assert_eq!(outcome(only_trader_middleware(&rejected, &status)), "deny Unauthorized");
        assert_eq!(outcome(only_merchant_middleware(&rejected, &status)), "deny Unauthorized");
        assert_eq!(outcome(for_all_users_middleware(&rejected, &status)), "deny Unauthorized");
    }
    assert_eq!(outcome(only_admin_middleware(&rejected)), "deny Unauthorized");
}

#[test]
fn trader_gate_by_block_status() {
    let trader = token("t1", "trader", None);
    assert_eq!(outcome(only_trader_middleware(&trader, &None)), "check Trader t1");
    assert_eq!(outcome(only_trader_middleware(&trader, &Some(Ok(true)))), "deny Unauthorized");
    assert_eq!(outcome(only_trader_middleware(&trader, &Some(Ok(false)))), "allow t1 trader None");
    for kind in KINDS {
        assert_eq!(outcome(only_trader_middleware(&trader, &Some(Err(kind)))), format!("deny {:?}", kind));
    }
}

#[test]
fn impersonated_trader_passes_whatever_the_block_status() {
    let trader = token("t1", "trader", Some("a1"));
    for status in every_status() {
        assert_eq!(outcome(only_trader_middleware(&trader, &status)), "allow t1 trader Some(\"a1\")");
        assert_eq!(outcome(for_all_users_middleware(&trader, &status)), "allow t1 trader Some(\"a1\")");
    }
}

#[test]
fn trader_gate_needs_the_exact_role() {
    for role in ["merchant", "admin", "", "Trader", "TRADER", "trader "] {
        for by in [None, Some("a1")] {
            for status in every_status() {
                assert_eq!(outcome(only_trader_middleware(&token("t1", role, by), &status)), "deny Forbidden");
            }
        }
    }
}

#[test]
fn merchant_gate_by_block_status() {
    let merchant = token("m1", "merchant", None);
    assert_eq!(outcome(only_merchant_middleware(&merchant, &None)), "check Merchant m1");
    assert_eq!(outcome(only_merchant_middleware(&merchant, &Some(Ok(true)))), "deny Unauthorized");
    assert_eq!(outcome(only_merchant_middleware(&merchant, &Some(Ok(false)))), "allow m1 merchant None");
    for kind in KINDS {
        let expected = match kind {
            LibError::NotFound | LibError::MerchantNotFound => LibError::Forbidden,
            other => other,
        };
        assert_eq!(outcome(only_merchant_middleware(&merchant, &Some(Err(kind)))), format!("deny {:?}", expected));
    }
}

#[test]
fn merchant_gate_takes_the_role_in_any_case() {
    for role in ["merchant", "Merchant", "MERCHANT", "mErChAnT"] {
        assert_eq!(
            outcome(only_merchant_middleware(&token("m1", role, None), &Some(Ok(false)))),
            format!("allow m1 {} None", role)
        );
        assert_eq!(outcome(only_merchant_middleware(&token("m1", role, None), &None)), "check Merchant m1");
    }
    for role in ["trader", "admin", "", "merchant ", "merchants"] {
        for status in every_status() {
            assert_eq!(outcome(only_merchant_middleware(&token("m1", role, None), &status)), "deny Forbidden");
        }
    }
}

#[test]
fn impersonated_merchant_passes_whatever_the_block_status() {
    for status in every_status() {
        assert_eq!(
            outcome(only_merchant_middleware(&token("m1", "Merchant", Some("a1")), &status)),
            "allow m1 Merchant Some(\"a1\")"
        );
    }
}

#[test]
fn merchant_gate_with_given_role() {
    let merchant = claims("m1", "whatever", None);
    assert_eq!(outcome(merchant_gate_for(&merchant, "merchant", &Some(Ok(false)))), "allow m1 whatever None");
    assert_eq!(outcome(merchant_gate_for(&merchant, "Merchant", &Some(Ok(false)))), "deny Forbidden");
    assert_eq!(outcome(merchant_gate_for(&merchant, "merchant", &Some(Err(LibError::NotFound)))), "deny Forbidden");
}

#[test]
fn universal_gate_checks_only_traders() {
    for role in ["merchant", "admin", "", "auditor"] {
        for by in [None, Some("a1")] {
            for status in every_status() {
                assert_eq!(
                    outcome(for_all_users_middleware(&token("u1", role, by), &status)),
                    format!("allow u1 {} {:?}", role, by.map(str::to_string))
                );
            }
        }
    }
    for role in ["trader", "Trader", "TRADER"] {
        let trader = token("t1", role, None);
        assert_eq!(outcome(for_all_users_middleware(&trader, &None)), "check Trader t1");
        assert_eq!(outcome(for_all_users_middleware(&trader, &Some(Ok(true)))), "deny Forbidden");
        assert_eq!(outcome(for_all_users_middleware(&trader, &Some(Ok(false)))), format!("allow t1 {} None", role));
        for kind in KINDS {
            assert_eq!(outcome(for_all_users_middleware(&trader, &Some(Err(kind)))), format!("deny {:?}", kind));
        }
    }
}

#[test]
fn universal_gate_with_given_role() {
    let user = claims("u1", "whatever", None);
    assert_eq!(outcome(universal_gate_for(&user, "trader", &None)), "check Trader u1");
    assert_eq!(outcome(universal_gate_for(&user, "Trader", &None)), "allow u1 whatever None");
    assert_eq!(outcome(universal_gate_for(&user, "trader", &Some(Ok(true)))), "deny Forbidden");
}

#[test]
fn lookup_is_for_the_subject_of_the_token() {
    match only_trader_middleware(&token("trader-77", "trader", None), &None) {
        GateStep::CheckBlocked { entity, id } => {
            assert_eq!(entity, Entity::Trader);
            assert_eq!(id, "trader-77");
        }
        other => panic!("{:?}", other),
    }
    match only_merchant_middleware(&token("merchant-5", "merchant", None), &None) {
        GateStep::CheckBlocked { entity, id } => {
            assert_eq!(entity, Entity::Merchant);
            assert_eq!(id, "merchant-5");
        }
        other => panic!("{:?}", other),
    }
}

#[test]
fn claims_are_copied_whole() {
    let first = claims("t1", "trader", Some("a1"));
    let copy = first.clone();
    assert_eq!(copy.sub, "t1");
    assert_eq!(copy.role, "trader");
    assert_eq!(copy.exp, 4_102_444_800);
    assert_eq!(copy.impersonated_by.as_deref(), Some("a1"));
    assert!(copy.is_impersonated());
    assert!(!claims("t1", "trader", None).is_impersonated());
}

#[test]
fn header_names() {
    assert_eq!(authgate::middlewares::TOKEN_HEADER, "X-Token");
    assert_eq!(authgate::middlewares::MERCHANT_ID_HEADER, "X-Merchant-ID");
    assert_eq!(authgate::middlewares::TIMESTAMP_HEADER, "X-Timestamp");
    assert_eq!(authgate::middlewares::SIGNATURE_HEADER, "X-Signature");
    assert_eq!(authgate::models::JOB_QUEUE_CAPACITY, 100);
}
