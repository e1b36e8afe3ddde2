use hmac::Hmac;
use hmac::KeyInit;
use hmac::Mac;
use sha2::Sha256;

use lalamove::signing::canonical_string;
use lalamove::signing::sign_request;
use lalamove::text::parse_u64;
use lalamove::text::u64_to_string;

fn reference_signature(secret: &str, time_ms: u64, method: &str, path: &str, body: &str) -> String {
    let canonical = format!("{time_ms}\r\n{method}\r\n{path}\r\n\r\n{body}");
    let mut mac = Hmac::<Sha256>::new_from_slice(secret.as_bytes()).unwrap();
    mac.update(canonical.as_bytes());
    hex::encode(mac.finalize().into_bytes())
}

#[test]
fn canonical_string_exact_shape() {
    let canonical = canonical_string(123, "GET", "/v3/cities", "");
    assert_eq!(canonical, "123\r\nGET\r\n/v3/cities\r\n\r\n");
    let canonical = canonical_string(1700000000000, "POST", "/v3/quotations", "{\"data\":{}}");
    assert_eq!(
        canonical,
        "1700000000000\r\nPOST\r\n/v3/quotations\r\n\r\n{\"data\":{}}"
    );
}

#[test]
fn signature_matches_reference_computation() {
    let signature = sign_request(
        "abctest_secretvalue",
        1700000000000,
        "POST",
        "/v3/quotations",
        "{\"data\":{\"x\":1}}",
    );
    let expected = reference_signature(
        "abctest_secretvalue",
        1700000000000,
        "POST",
        "/v3/quotations",
        "{\"data\":{\"x\":1}}",
    );
    assert_eq!(signature, expected);
    assert_eq!(signature.len(), 64);
    assert!(signature.chars().all(|c| c.is_ascii_hexdigit() && !c.is_ascii_uppercase()));
}

#[test]
fn signature_is_deterministic() {
    let a = sign_request("abctest_k", 42, "GET", "/v3/cities", "");
    let b = sign_request("abctest_k", 42, "GET", "/v3/cities", "");
    assert_eq!(a, b);
}

#[test]
fn signature_changes_with_each_input() {
    let base = sign_request("abctest_k", 42, "GET", "/v3/cities", "");
    assert_ne!(base, sign_request("abctest_x", 42, "GET", "/v3/cities", ""));
    assert_ne!(base, sign_request("abctest_k", 43, "GET", "/v3/cities", ""));
    assert_ne!(base, sign_request("abctest_k", 42, "POST", "/v3/cities", ""));
    assert_ne!(base, sign_request("abctest_k", 42, "GET", "/v3/orders", ""));
    assert_ne!(base, sign_request("abctest_k", 42, "GET", "/v3/cities", "{}"));
}

#[test]
fn decimal_rendering_exact() {
    assert_eq!(u64_to_string(0), "0");
    assert_eq!(u64_to_string(7), "7");
    assert_eq!(u64_to_string(1024), "1024");
    assert_eq!(u64_to_string(u64::MAX), "18446744073709551615");
}

#[test]
fn decimal_parsing_mirrors_std() {
    for input in ["0", "7", "1024", "18446744073709551615", "+99", "007"] {
        assert_eq!(parse_u64(input), input.parse::<u64>().ok(), "{input}");
    }
    for input in ["", "+", "abc", "-1", "1.5", " 1", "18446744073709551616", "++1"] {
        assert_eq!(parse_u64(input), None, "{input}");
        assert!(input.parse::<u64>().is_err(), "{input}");
    }
}
