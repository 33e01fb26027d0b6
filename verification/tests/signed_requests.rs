use authgate::clock::Instant;
use authgate::errors::LibError;
use authgate::middlewares::{merchant_api_gate, merchant_api_middleware, raw_line};
use authgate::middlewares::{Method, SignedRequest, SignedStep};
use authgate::use_case::merchant::{check_signature, signature_outcome, verify_signature};
use base64::Engine;
use rsa::pkcs1::EncodeRsaPublicKey;
use rsa::sha2::Digest;

const KEY_A_PUBLIC: &str = "-----BEGIN RSA PUBLIC KEY-----\nMIIBCgKCAQEAtS1X1+Tnm2N1g7rd192kZPaxYIPF9xDOWYdw7Tc7d/WxFDEGc+Ob\nr6XCEnryfO0NKL+VjDniEup90P9O6W8QlUJya8lLU4ZZZphTA8uPEvDLMI6tgK/s\nrjLwy/JlijBIXEOXMP4FNQTWtVhdEHsL3VlmkB9o92zUD/FVv1DFMrrforwUNGxN\n67IwHwQjG/F+9Qboh0qzlxZ9zn33hTQnBcb7AjDo39KogPc2F2diUQ01n4pacJFU\nq8kxu3e8WFkzzLgYpSzz2NI9mEeuBwUQL5VN379yCQkZeNM3jgdQ7BU6GX9p89M7\nLRHZ8slxrPBHF7nE2CFoe5YsGroxbjSdJwIDAQAB\n-----END RSA PUBLIC KEY-----\n";
const KEY_B_PUBLIC: &str = "-----BEGIN RSA PUBLIC KEY-----\nMIIBCgKCAQEAqA9P972ghQSwkd7/MAQgSeVyV0wMlfME6ny374f+omk5jGY8qPyC\nO2KGx3w/FlTWtYEBKQgnxCOmjmkYEEePEMLbDSOb0G4FZVetsYv3tv4kuD2cwO9p\n3rGZXrzLJA/cS1zqHxdyjb9rsDSBbcWb/g8PGufw3s3WKgTaekbulAf0UBxm0bBU\nt9eblycfdI2aezgPnw4I/PvPjreqQWLD3qqgBoKgWDJVRPK0pehN4Xw/PtVFqleB\nKz2uJ/bDkwHnRWJgfU8sWHnT7xLiPWS1FVM73CHuqbSAahgnHepnLdABTIYeMG08\n6LrRB/C/ConxMkQB5xhZqZJY9geiqls/qwIDAQAB\n-----END RSA PUBLIC KEY-----\n";
const KEY_A_MODULUS: &str = "b52d57d7e4e79b637583baddd7dda464f6b16083c5f710ce598770ed373b77f5b114310673e39bafa5c2127af27ced0d28bf958c39e212ea7dd0ff4ee96f109542726bc94b53865966985303cb8f12f0cb308ead80afecae32f0cbf2658a30485c439730fe053504d6b5585d107b0bdd5966901f68f76cd40ff155bf50c532badfa2bc14346c4debb2301f04231bf17ef506e8874ab397167dce7df785342705c6fb0230e8dfd2a880f736176762510d359f8a5a709154abc931bb77bc585933ccb818a52cf3d8d23d9847ae0705102f954ddfbf7209091978d3378e0750ec153a197f69f3d33b2d11d9f2c971acf04717b9c4d821687b962c1aba316e349d27";
const KEY_A_EXPONENT: &str = "51537b3cf4096adce8612b3e6da99623a400d71c0f7ee9d256a9cf6d0bffebc723a7b6a1f8df508135dcb9c2ea9a5d262d0662b0c142d3cee28f302b51e982fe1d07938e95fb7631273674fd1d20aa15e07f796c3479c3ba262fa4bcb80ba1c4b975b5a64e40341e69ea99319d363e8b2b983855811e9f81496ec158d17ed358007e95768d66d65713a98d786d3554a51eb4e076eb0f7b9dd3325fb17d74dbc1657832e239a29419534bb973816131e4e9422b0ca2114f7815ad77246afc62f74916e35675c48800574b91abe0d52673fb43b72c7d1b0b19985088a0dd880913413c58ef985fa97fcd48674707f657bdbdfea10cf1d060edaf0fa223a8c28d91";
const KEY_A_PRIME1: &str = "f0edfb9df9fe2de1b60e37c473ed24fff3baa92d39479a63a8c937a1134ce636ae745aff83cf190638e2f68771c0ead5136ebf3618c5bb43a021e7d748acaf8dd56660390a4e0e5251de55d7eafe9e46d6eb04a9d0d23ccac07c54f2d6659c56e1e33627bba8d7af57961c42e12edd7b36fbca2a8946a15c5187cd146dc3715b";
const KEY_A_PRIME2: &str = "c0828a6dd07ed5e5bb5034d1e8cf82f10b336fa68bf64b138187c82ccdc71456b78908cf5e83aa5f04e81f32705c0ca7e0690aa4b0a511f45321c7e13f3970495b764cf06602d622b59dfc24ffb30cba618de01cd0b6e8cf69a2cfddf3dfdaabc10aab6279c0614d873bd8338d6f4cbc0f472b154c8d1bd6f66d40bad0f1a125";

const POST_LINE: &str = "POST\nm1\n2024-01-01T00:00:00Z\n{\"amount\":10}";
const POST_SIGNATURE: &str = "KMt8a1/YgLyz97pO5mIW36APpAHWFA37UeMxhffadWWo3BqM+ueVt2JM+P99Bl4q8o7akew/Eeo4COVEPvBs/0Xt+bmlvb9I7zd3ULcrbg46u0mk22+4EjEy9MGcviy8nOT6jfSctzz7/gYxNDtziCIcysk/qfnvNt2CjTURVbVs5v8C+7G06qKBanz2daW6SCqIPT+UNLvp0Nk6LeUPJC+OvwhWWy9BYMIE4yFw67ylaLng0EeBeD90xFe36x2StzDaau2bhRlw2y4s+ltxYJgfrhQtEAxp2aN75IYDmv+B6PhuNusMTDmAB/vlJ6EEkQTgomNBB4Xfo8XbCCTy/w==";
const OTHER_BODY_SIGNATURE: &str = "jFPd5p3qvYIyUwDeUl6iAj1szgLfLPrKdVSAUfDR/HeGQwHBIlj6zjLQHpKPxT8O6A1DlvqLwfEtKT/gsKy+Ft8201TAwbYOJ/qllFvmACMuSS+dt9GIWslSEIFIqm63FG7WHlw/5JGOZ4JvShdhHFMkHi+HUfhr5nOKlUByi2JxYMJsuTHg1OUuxsxqDpJQfl8a0yL3TlPETJL9Dq6AOUU8ygF3IuKssaZp8DPDoNKvRjq3Esuhon2vdFkirsEqtTaykQCpx19Vh2GPAOsr8OQd67PS/Rf3w/M15EjTtkXBGDJA4o/NCDUIU6KhCB5tvS7K1ZB/jQisbD4T2opGiw==";
const GET_LINE: &str = "GET\nm1\n2024-01-01T00:00:00Z";
const GET_SIGNATURE: &str = "iYkzXtL0Gf9uKGAlVi6/XVMcP6kFWzcXqjPdsYcSgGGaVtgTG4iLdrp20pi1tBQRbou6MiLXwEz3fpufigWA/7WL90ugL6Jw7LI2EKcoF6uP1Vq4wISEC5ZouGVhiS+CmpcLxyLPdRils87cDCHdrKv8vShTYTIsRs1aW/anZ6m3T/lvMl51k5NX15qP+FBg2BI1KenIWWvBjR4URpm8szVnIgwQM2fbgTV7PL98OO0FQKkOO+FvNnJ9+GOz7ThyypqR8spCBOfc73Ur8WPU2nOWr6VSs9WPGLU1aDL1ljZY2/tapn0CuNOwMUcFTHSdXUklXkN7VqTMdN0msObc9g==";

// 2024-01-01T00:00:00Z
const NEW_YEAR_2024: i64 = 1_704_067_200;

fn big(hex: &str) -> rsa::BigUint {
    rsa::BigUint::parse_bytes(hex.as_bytes(), 16).unwrap()
}

fn key_a() -> rsa::RsaPrivateKey {
    rsa::RsaPrivateKey::from_components(
        big(KEY_A_MODULUS),
        big("10001"),
        big(KEY_A_EXPONENT),
        vec![big(KEY_A_PRIME1), big(KEY_A_PRIME2)],
    )
    .unwrap()
}

fn sign(key: &rsa::RsaPrivateKey, line: &str) -> String {
    let digest = rsa::sha2::Sha256::digest(line.as_bytes());
    let signature = key.sign(rsa::Pkcs1v15Sign::new::<rsa::sha2::Sha256>(), &digest).unwrap();
    base64::engine::general_purpose::STANDARD.encode(signature)
}

fn signed_post(signature: &str, at: Instant) -> SignedRequest {
    SignedRequest {
        method: Method::Post,
        merchant_id: Some("m1".to_string()),
        timestamp: Some("2024-01-01T00:00:00Z".to_string()),
        signature: Some(signature.to_string()),
        body: Some(b"{\"amount\":10}".to_vec()),
        received_at: at,
    }
}

fn at_new_year() -> Instant {
    Instant { secs: NEW_YEAR_2024, nanos: 0 }
}

#[test]
fn public_key_of_components_is_the_known_key() {
    let pem = key_a().to_public_key().to_pkcs1_pem(rsa::pkcs1::LineEnding::LF).unwrap();
    assert_eq!(pem, KEY_A_PUBLIC);
}

#[test]
fn signature_made_elsewhere_verifies() {
    assert_eq!(check_signature(KEY_A_PUBLIC, POST_SIGNATURE, POST_LINE), Ok(true));
    assert_eq!(check_signature(KEY_A_PUBLIC, GET_SIGNATURE, GET_LINE), Ok(true));
}

#[test]
fn signature_round_trip_returns_true() {
    let key = key_a();
    for line in [POST_LINE, GET_LINE, "", "GET\nmerchant-7\n2031-05-05T10:00:00+03:00", "каноническая строка"] {
        let signature = sign(&key, line);
        assert_eq!(check_signature(KEY_A_PUBLIC, &signature, line), Ok(true), "line {:?}", line);
    }
}

#[test]
fn signing_is_the_same_as_elsewhere() {
    assert_eq!(sign(&key_a(), POST_LINE), POST_SIGNATURE);
}

#[test]
fn altered_line_returns_false() {
    let bytes = POST_LINE.as_bytes();
    for at in 0..bytes.len() {
        let mut altered = bytes.to_vec();
        altered[at] = if altered[at] == b'x' { b'y' } else { b'x' };
        let altered = String::from_utf8(altered).unwrap();
        assert_eq!(check_signature(KEY_A_PUBLIC, POST_SIGNATURE, &altered), Ok(false), "byte {}", at);
    }
    assert_eq!(check_signature(KEY_A_PUBLIC, POST_SIGNATURE, GET_LINE), Ok(false));
}

#[test]
fn mismatched_key_returns_false() {
    assert_eq!(check_signature(KEY_B_PUBLIC, POST_SIGNATURE, POST_LINE), Ok(false));
}

#[test]
fn malformed_key_returns_false() {
    assert_eq!(check_signature("not a key", POST_SIGNATURE, POST_LINE), Ok(false));
    assert_eq!(check_signature("", POST_SIGNATURE, POST_LINE), Ok(false));
    let truncated = &KEY_A_PUBLIC[..KEY_A_PUBLIC.len() / 2];
    assert_eq!(check_signature(truncated, POST_SIGNATURE, POST_LINE), Ok(false));
    // A malformed key decides before the signature text is looked at.
    assert_eq!(check_signature("not a key", "%%%", POST_LINE), Ok(false));
}

#[test]
fn signature_that_is_not_base64_is_unauthorized() {
    assert_eq!(check_signature(KEY_A_PUBLIC, "%%% not base64 %%%", POST_LINE), Err(LibError::Unauthorized));
    assert_eq!(check_signature(KEY_A_PUBLIC, "abc", POST_LINE), Err(LibError::Unauthorized));
}

#[test]
fn signature_of_wrong_length_returns_false() {
    assert_eq!(check_signature(KEY_A_PUBLIC, "", POST_LINE), Ok(false));
    assert_eq!(check_signature(KEY_A_PUBLIC, "AAAA", POST_LINE), Ok(false));
}

#[test]
fn signature_outcome_table() {
    assert_eq!(signature_outcome(false, false, false), Ok(false));
    assert_eq!(signature_outcome(false, true, true), Ok(false));
    assert_eq!(signature_outcome(true, false, false), Err(LibError::Unauthorized));
    assert_eq!(signature_outcome(true, false, true), Err(LibError::Unauthorized));
    assert_eq!(signature_outcome(true, true, false), Ok(false));
    assert_eq!(signature_outcome(true, true, true), Ok(true));
}

#[test]
fn failed_key_lookup_is_handed_on() {
    for kind in [LibError::InternalError, LibError::MerchantNotFound, LibError::NotFound] {
        assert_eq!(verify_signature(&Err(kind), POST_SIGNATURE, POST_LINE), Err(kind));
    }
    assert_eq!(verify_signature(&Ok(KEY_A_PUBLIC.to_string()), POST_SIGNATURE, POST_LINE), Ok(true));
    assert_eq!(verify_signature(&Ok(KEY_B_PUBLIC.to_string()), POST_SIGNATURE, POST_LINE), Ok(false));
}

#[test]
fn raw_line_by_method() {
    assert_eq!(raw_line(Method::Get, "m1", "2024-01-01T00:00:00Z", "ignored"), Some(GET_LINE.to_string()));
    assert_eq!(raw_line(Method::Post, "m1", "2024-01-01T00:00:00Z", "{\"amount\":10}"), Some(POST_LINE.to_string()));
    assert_eq!(raw_line(Method::Post, "", "", ""), Some("POST\n\n\n".to_string()));
    assert_eq!(raw_line(Method::Other, "m1", "2024-01-01T00:00:00Z", ""), None);
}

#[test]
fn signed_post_with_valid_signature_is_allowed() {
    let request = signed_post(POST_SIGNATURE, at_new_year());
    let (merchant_id, signature, line) = match merchant_api_middleware(&request, &None, &None) {
        SignedStep::VerifySignature { merchant_id, signature, raw_line } => (merchant_id, signature, raw_line),
        other => panic!("expected a verification, got {:?}", other),
    };
    assert_eq!(merchant_id, "m1");
    assert_eq!(signature, POST_SIGNATURE);
    assert_eq!(line, POST_LINE);
    let verdict = verify_signature(&Ok(KEY_A_PUBLIC.to_string()), &signature, &line);
    assert_eq!(verdict, Ok(true));
    match merchant_api_middleware(&request, &Some(verdict), &None) {
        SignedStep::CheckBlocked { merchant_id } => assert_eq!(merchant_id, "m1"),
        other => panic!("expected a block check, got {:?}", other),
    }
    match merchant_api_middleware(&request, &Some(verdict), &Some(Ok(false))) {
        SignedStep::Allow { merchant_id, body } => {
            assert_eq!(merchant_id, "m1");
            assert_eq!(body, b"{\"amount\":10}".to_vec());
        }
        other => panic!("expected a pass, got {:?}", other),
    }
}

#[test]
fn signed_post_with_signature_over_other_body_is_unauthorized() {
    let request = signed_post(OTHER_BODY_SIGNATURE, at_new_year());
    let (signature, line) = match merchant_api_middleware(&request, &None, &None) {
        SignedStep::VerifySignature { signature, raw_line, .. } => (signature, raw_line),
        other => panic!("expected a verification, got {:?}", other),
    };
    assert_eq!(line, POST_LINE);
    let verdict = verify_signature(&Ok(KEY_A_PUBLIC.to_string()), &signature, &line);
    assert_eq!(verdict, Ok(false));
    match merchant_api_middleware(&request, &Some(verdict), &None) {
        SignedStep::Deny(kind) => assert_eq!(kind, LibError::Unauthorized),
        other => panic!("expected a denial, got {:?}", other),
    }
}

fn denial(step: SignedStep) -> LibError {
    match step {
        SignedStep::Deny(kind) => kind,
        other => panic!("expected a denial, got {:?}", other),
    }
}

#[test]
fn signed_request_outside_window_is_unauthorized() {
    let five_minutes: i64 = 300;
    let valid = Some(Ok(true));
    let clear = Some(Ok(false));
    // Exactly five minutes late or early is still within the window.
    for at in [
        Instant { secs: NEW_YEAR_2024 + five_minutes, nanos: 0 },
        Instant { secs: NEW_YEAR_2024 - five_minutes, nanos: 0 },
        Instant { secs: NEW_YEAR_2024 + 299, nanos: 999_999_999 },
    ] {
        let request = signed_post(POST_SIGNATURE, at);
        assert!(matches!(merchant_api_middleware(&request, &valid, &clear), SignedStep::Allow { .. }), "{:?}", at);
    }
    // One nanosecond more is outside, whatever the signature.
    for at in [
        Instant { secs: NEW_YEAR_2024 + five_minutes, nanos: 1 },
        Instant { secs: NEW_YEAR_2024 - five_minutes - 1, nanos: 999_999_999 },
        Instant { secs: NEW_YEAR_2024 + 330, nanos: 0 },
        Instant { secs: NEW_YEAR_2024 - 330, nanos: 0 },
        Instant { secs: NEW_YEAR_2024 + 86_400, nanos: 0 },
        Instant { secs: i64::MAX, nanos: u32::MAX },
        Instant { secs: i64::MIN, nanos: 0 },
    ] {
        let request = signed_post(POST_SIGNATURE, at);
        for validity in [None, Some(Ok(true)), Some(Ok(false)), Some(Err(LibError::InternalError))] {
            for blocked in [None, Some(Ok(false)), Some(Ok(true))] {
                assert_eq!(denial(merchant_api_middleware(&request, &validity, &blocked)), LibError::Unauthorized, "{:?}", at);
            }
        }
    }
}

#[test]
fn signed_request_timestamp_with_offset_and_fraction() {
    // 02:00 at +02:00 is midnight UTC.
    let mut request = signed_post(POST_SIGNATURE, at_new_year());
    request.timestamp = Some("2024-01-01T02:00:00+02:00".to_string());
    match merchant_api_middleware(&request, &None, &None) {
        SignedStep::VerifySignature { raw_line, .. } => {
            assert_eq!(raw_line, "POST\nm1\n2024-01-01T02:00:00+02:00\n{\"amount\":10}");
        }
        other => panic!("expected a verification, got {:?}", other),
    }
    // Half a second past five minutes is outside.
    request.timestamp = Some("2024-01-01T00:05:00.5Z".to_string());
    assert_eq!(denial(merchant_api_middleware(&request, &None, &None)), LibError::Unauthorized);
    request.timestamp = Some("2024-01-01T00:05:00.0Z".to_string());
    assert!(matches!(merchant_api_middleware(&request, &None, &None), SignedStep::VerifySignature { .. }));
    // The same text as its own instant would be inside: the parse did not hand the text back.
    request.timestamp = Some("2023-12-31T23:54:59Z".to_string());
    assert_eq!(denial(merchant_api_middleware(&request, &None, &None)), LibError::Unauthorized);
}

#[test]
fn signed_request_header_checks() {
    let mut request = signed_post(POST_SIGNATURE, at_new_year());
    request.merchant_id = None;
    assert_eq!(denial(merchant_api_middleware(&request, &None, &None)), LibError::Unauthorized);

    let mut request = signed_post(POST_SIGNATURE, at_new_year());
    request.timestamp = None;
    assert_eq!(denial(merchant_api_middleware(&request, &None, &None)), LibError::Unauthorized);

    for text in ["", "yesterday", "2024-01-01 00:00:00", "2024-01-01T00:00:00", "1704067200", "2024-13-01T00:00:00Z"] {
        let mut request = signed_post(POST_SIGNATURE, at_new_year());
        request.timestamp = Some(text.to_string());
        assert_eq!(denial(merchant_api_middleware(&request, &Some(Ok(true)), &Some(Ok(false)))), LibError::Unauthorized, "{:?}", text);
    }

    let mut request = signed_post(POST_SIGNATURE, at_new_year());
    request.signature = None;
    assert_eq!(denial(merchant_api_middleware(&request, &None, &None)), LibError::Unauthorized);

    let mut request = signed_post(POST_SIGNATURE, at_new_year());
    request.body = None;
    assert_eq!(denial(merchant_api_middleware(&request, &None, &None)), LibError::InternalError);

    // A missing signature is found before an unreadable body.
    let mut request = signed_post(POST_SIGNATURE, at_new_year());
    request.signature = None;
    request.body = None;
    assert_eq!(denial(merchant_api_middleware(&request, &None, &None)), LibError::Unauthorized);

    let mut request = signed_post(POST_SIGNATURE, at_new_year());
    request.method = Method::Other;
    assert_eq!(denial(merchant_api_middleware(&request, &Some(Ok(true)), &Some(Ok(false)))), LibError::Unauthorized);
}

#[test]
fn signed_get_ignores_body_in_line() {
    let mut request = signed_post(GET_SIGNATURE, at_new_year());
    request.method = Method::Get;
    match merchant_api_middleware(&request, &None, &None) {
        SignedStep::VerifySignature { raw_line, signature, .. } => {
            assert_eq!(raw_line, GET_LINE);
            assert_eq!(verify_signature(&Ok(KEY_A_PUBLIC.to_string()), &signature, &raw_line), Ok(true));
        }
        other => panic!("expected a verification, got {:?}", other),
    }
}

#[test]
fn signed_request_after_verification() {
    let request = signed_post(POST_SIGNATURE, at_new_year());
    assert_eq!(denial(merchant_api_middleware(&request, &Some(Ok(false)), &None)), LibError::Unauthorized);
    assert_eq!(denial(merchant_api_middleware(&request, &Some(Ok(false)), &Some(Ok(false)))), LibError::Unauthorized);
    for kind in [LibError::Unauthorized, LibError::InternalError, LibError::MerchantNotFound, LibError::NotFound] {
        assert_eq!(denial(merchant_api_middleware(&request, &Some(Err(kind)), &None)), kind);
        assert_eq!(denial(merchant_api_middleware(&request, &Some(Ok(true)), &Some(Err(kind)))), kind);
    }
    assert_eq!(denial(merchant_api_middleware(&request, &Some(Ok(true)), &Some(Ok(true)))), LibError::Forbidden);
}

#[test]
fn signed_body_that_is_not_utf8_is_signed_as_replaced_text() {
    let mut request = signed_post(POST_SIGNATURE, at_new_year());
    request.body = Some(vec![b'a', 0xff, b'b']);
    match merchant_api_middleware(&request, &None, &None) {
        SignedStep::VerifySignature { raw_line, .. } => {
            assert_eq!(raw_line, "POST\nm1\n2024-01-01T00:00:00Z\na\u{fffd}b");
        }
        other => panic!("expected a verification, got {:?}", other),
    }
    // The body that is passed on is the one that arrived, not its text.
    match merchant_api_middleware(&request, &Some(Ok(true)), &Some(Ok(false))) {
        SignedStep::Allow { body, .. } => assert_eq!(body, vec![b'a', 0xff, b'b']),
        other => panic!("expected a pass, got {:?}", other),
    }
}

#[test]
fn gate_with_given_instant_and_text() {
    let request = signed_post(POST_SIGNATURE, at_new_year());
    assert_eq!(denial(merchant_api_gate(&request, None, "x", &None, &None)), LibError::Unauthorized);
    let far = Some(Instant { secs: 0, nanos: 0 });
    assert_eq!(denial(merchant_api_gate(&request, far, "x", &Some(Ok(true)), &Some(Ok(false)))), LibError::Unauthorized);
    match merchant_api_gate(&request, Some(at_new_year()), "x", &None, &None) {
        SignedStep::VerifySignature { raw_line, .. } => assert_eq!(raw_line, "POST\nm1\n2024-01-01T00:00:00Z\nx"),
        other => panic!("expected a verification, got {:?}", other),
    }
}

#[test]
fn received_request_is_stamped_with_the_present() {
    let request = SignedRequest::receive(Method::Get, Some("m1".to_string()), None, None, Some(Vec::new()));
    assert_eq!(request.method, Method::Get);
    assert_eq!(request.merchant_id.as_deref(), Some("m1"));
    assert_eq!(request.timestamp, None);
    assert_eq!(request.signature, None);
    assert_eq!(request.body, Some(Vec::new()));
    // Later than 2024-01-01 and well before the year 3000.
    assert!(request.received_at.secs > NEW_YEAR_2024);
    assert!(request.received_at.secs < 32_503_680_000);
}
