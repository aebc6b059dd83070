//! Tokens, attested fingerprints, addresses and the proxies that are trusted.
use base64::Engine;
use hmac::Mac;
use scraping_defense::auth::{
    bearer_token, constant_time_eq, decode_hs256_jwt, decode_hs256_jwt_at, is_authorized,
    is_authorized_at, verify_hmac_sha256, verify_hs256_jwt, verify_hs256_jwt_at,
};
use scraping_defense::cloud_proxy::{
    bind_trusted_tls_fingerprint, bind_trusted_tls_fingerprint_at, not_configured,
    provider_unreachable,
};
use scraping_defense::headers::Headers;
use scraping_defense::ip::{
    ip_in_cidr, ip_in_ranges, ip_string, is_loopback_ip, is_public_ip, parse_ip, IpAddress,
};
use scraping_defense::json::{Json, JsonObject};
use scraping_defense::origin::{
    is_blockable_client_ip, is_trusted_proxy, trusted_originating_client_ip,
    trusted_tls_fingerprint, TrustedProxies,
};
use scraping_defense::outside::{parse_json, random_uuid, unix_seconds, unix_seconds_at};
use scraping_defense::tls::{
    create_tls_fingerprint_attestation, normalize_ja3, normalize_ja4, normalize_tls_source,
    tls_attestation_message, verify_tls_fingerprint_attestation,
    verify_tls_fingerprint_attestation_with_keys, TlsAttestationContext, TlsFingerprint,
};

const KEY: &str = "0123456789abcdef0123456789abcdef";
const JA3: &str = "72a589da586844d7f0818ce684948eea";
const JA4: &str = "t13d1516h2_8daaf6152771_e5627efa2ab1";

fn address(text: &str) -> IpAddress {
    parse_ip(text).expect("an address")
}

fn fingerprint() -> TlsFingerprint {
    TlsFingerprint { ja3: Some(JA3.into()), ja4: Some(JA4.into()), source: "envoy".into() }
}

fn no_proxies() -> TrustedProxies {
    TrustedProxies { cdn: None, proxies: None }
}

fn object(pairs: &[(&str, &str)]) -> Json {
    let mut body = JsonObject::new();
    for (name, value) in pairs {
        body.put(name, Json::Text(value.to_string()));
    }
    Json::Object(body)
}

/// A token that a secret signed, made with the signature crates directly.
fn signed(payload: &str, secret: &str) -> String {
    let engine = base64::engine::general_purpose::URL_SAFE_NO_PAD;
    let header = engine.encode(r#"{"alg":"HS256","typ":"JWT"}"#);
    let payload = engine.encode(payload);
    let input = format!("{header}.{payload}");
    let mut mac = hmac::Hmac::<sha2::Sha256>::new_from_slice(secret.as_bytes()).unwrap();
    mac.update(input.as_bytes());
    let signature = engine.encode(mac.finalize().into_bytes());
    format!("{input}.{signature}")
}

#[test]
fn hs256_jwt_decodes_verified_claims() {
    let token = signed(r#"{"sub":"admin","roles":["ops"],"exp":4102444800}"#, "secret");

    let claims = decode_hs256_jwt(&token, "secret").expect("verified claims");

    assert_eq!(claims.get_text("sub"), Some("admin"));
    assert!(verify_hs256_jwt(&token, "secret"));
    assert!(decode_hs256_jwt(&token, "wrong").is_none());
}

#[test]
fn tokens_expire_at_their_time() {
    let token = signed(r#"{"sub":"admin","exp":1000}"#, "secret");
    assert!(verify_hs256_jwt_at(&token, "secret", 999));
    assert!(!verify_hs256_jwt_at(&token, "secret", 1000));
    let endless = signed(r#"{"sub":"admin"}"#, "secret");
    assert!(decode_hs256_jwt_at(&endless, "secret", i64::MAX).is_some());
    assert!(decode_hs256_jwt_at("a.b", "secret", 0).is_none());
    assert!(decode_hs256_jwt_at("a.b.c.d", "secret", 0).is_none());
}

#[test]
fn byte_strings_are_compared_whole() {
    assert!(constant_time_eq(b"abc", b"abc"));
    assert!(!constant_time_eq(b"abc", b"abd"));
    assert!(!constant_time_eq(b"abc", b"ab"));
    assert!(constant_time_eq(b"", b""));
}

#[test]
fn body_signatures_are_checked() {
    let mut mac = hmac::Hmac::<sha2::Sha256>::new_from_slice(b"secret").unwrap();
    mac.update(b"body");
    let signature = hex::encode(mac.finalize().into_bytes());
    assert!(verify_hmac_sha256("secret", b"body", &signature));
    assert!(!verify_hmac_sha256("secret", b"body", &signature.to_uppercase()));
    assert!(!verify_hmac_sha256("secret", b"other", &signature));
    assert!(!verify_hmac_sha256("wrong", b"body", &signature));
    assert!(!verify_hmac_sha256("secret", b"body", "not hexadecimal"));
    assert!(!verify_hmac_sha256("secret", b"body", &signature[2..]));
}

#[test]
fn a_request_shows_the_key_or_a_signed_token() {
    let mut with_key = Headers::new();
    with_key.push("X-Api-Key", Some("the-key"));
    assert!(is_authorized_at(&with_key, Some("the-key"), None, 0));
    assert!(!is_authorized_at(&with_key, Some("another"), None, 0));
    assert!(!is_authorized_at(&with_key, Some(""), None, 0));
    let mut with_token = Headers::new();
    let token = signed(r#"{"exp":1000}"#, "jwt-secret");
    let value = format!("Bearer {token}");
    with_token.push("authorization", Some(&value));
    assert_eq!(bearer_token(&with_token), Some(token));
    assert!(is_authorized_at(&with_token, None, Some("jwt-secret"), 10));
    assert!(!is_authorized_at(&with_token, None, Some("jwt-secret"), 2000));
    assert!(!is_authorized_at(&with_token, None, Some("other-secret"), 10));
    assert!(!is_authorized(&Headers::new(), Some("the-key"), Some("jwt-secret")));
    assert!(!is_authorized(&with_key, None, None));
}

#[test]
fn cidr_matching_distinguishes_origins_from_proxy_ranges() {
    assert!(ip_in_cidr(&address("173.245.48.10"), "173.245.48.0/20"));
    assert!(!ip_in_cidr(&address("198.51.100.10"), "173.245.48.0/20"));
    assert!(ip_in_cidr(&address("2400:cb00::1"), "2400:cb00::/32"));
}

#[test]
fn networks_are_read_carefully() {
    let ip = address("10.1.2.3");
    assert!(ip_in_cidr(&ip, "10.1.2.3/32"));
    assert!(ip_in_cidr(&ip, "0.0.0.0/0"));
    assert!(ip_in_cidr(&ip, "10.1.2.3"));
    assert!(!ip_in_cidr(&ip, "10.1.2.4"));
    assert!(!ip_in_cidr(&ip, "10.1.2.0/33"));
    assert!(!ip_in_cidr(&ip, "::/0"));
    assert!(!ip_in_cidr(&ip, "nonsense/8"));
    assert!(ip_in_ranges(&ip, "192.0.2.0/24, 10.0.0.0/8"));
    assert!(!ip_in_ranges(&ip, ""));
}

#[test]
fn addresses_are_read_and_written() {
    for text in [
        "0.0.0.0", "255.255.255.255", "::", "::1", "2001:db8::1", "1:2:3:4:5:6:7:8",
        "2001:db8:0:1:1:1:1:1", "::ffff:192.0.2.1", "fe80::1:0:0:1", "1:0:0:2::3",
    ] {
        let standard: std::string::String = text.to_string();
        assert_eq!(ip_string(&address(text)), standard);
    }
    assert_eq!(ip_string(&address("2001:DB8:0:0:0:0:0:1")), "2001:db8::1");
    assert_eq!(ip_string(&address("0:0:0:0:0:ffff:1.2.3.4")), "::ffff:1.2.3.4");
    for text in [
        "", "1.2.3", "1.2.3.4.5", "256.1.1.1", "01.2.3.4", "1.2.3.-4", ":::", "1::2::3",
        "1:2:3:4:5:6:7", "12345::", "g::", "1:2:3:4:5:6:7:8:9", " 1.2.3.4",
    ] {
        assert!(parse_ip(text).is_none(), "{text}");
    }
}

#[test]
fn public_ip_filter_rejects_non_routable_addresses() {
    assert!(!is_public_ip(&address("169.254.1.2")));
    assert!(!is_public_ip(&address("2001:db8::1")));
    assert!(is_public_ip(&address("1.1.1.1")));
}

#[test]
fn private_and_special_addresses_are_not_public() {
    for text in [
        "10.0.0.1", "172.16.0.1", "192.168.1.1", "127.0.0.1", "0.0.0.0", "255.255.255.255",
        "224.0.0.1", "192.0.2.1", "198.51.100.1", "203.0.113.1", "100.64.0.1", "198.18.0.1",
        "::1", "::", "fc00::1", "fe80::1", "ff02::1",
    ] {
        assert!(!is_public_ip(&address(text)), "{text}");
    }
    assert!(is_public_ip(&address("2606:4700::1111")));
    assert!(is_loopback_ip(&address("127.3.2.1")));
    assert!(is_loopback_ip(&address("::1")));
    assert!(!is_loopback_ip(&address("8.8.8.8")));
}

#[test]
fn tls_attestation_matches_the_cross_runtime_vector() {
    let token = create_tls_fingerprint_attestation(
        "0123456789abcdef0123456789abcdef",
        1_700_000_000,
        "198.51.100.7",
        "GET",
        "/products",
        &fingerprint(),
    )
    .unwrap();
    assert_eq!(
        token,
        "v1:1700000000:192976122c9fbaa4cb8c2554be66f2439e020a7d470ac838f2a622b0c5829a49"
    );
    assert!(verify_tls_fingerprint_attestation(
        Some(&token),
        "0123456789abcdef0123456789abcdef",
        60,
        &TlsAttestationContext {
            now: 1_700_000_030,
            client_ip: "198.51.100.7",
            method: "GET",
            path: "/products",
            fingerprint: &fingerprint(),
        },
    ));
}

#[test]
fn tls_attestation_rejects_get_root_replay_on_post_admin() {
    let key = "0123456789abcdef0123456789abcdef";
    let token = create_tls_fingerprint_attestation(
        key,
        1_700_000_000,
        "198.51.100.7",
        "GET",
        "/",
        &fingerprint(),
    )
    .unwrap();

    assert!(!verify_tls_fingerprint_attestation(
        Some(&token),
        key,
        60,
        &TlsAttestationContext {
            now: 1_700_000_030,
            client_ip: "198.51.100.7",
            method: "POST",
            path: "/admin",
            fingerprint: &fingerprint(),
        },
    ));
}

#[test]
fn tls_attestation_accepts_previous_key_during_rotation() {
    let current_key = "0123456789abcdef0123456789abcdef";
    let previous_key = "abcdef0123456789abcdef0123456789";
    let token = create_tls_fingerprint_attestation(
        previous_key,
        1_700_000_000,
        "198.51.100.7",
        "GET",
        "/products",
        &fingerprint(),
    )
    .unwrap();

    assert!(verify_tls_fingerprint_attestation_with_keys(
        Some(&token),
        &[current_key, previous_key],
        60,
        &TlsAttestationContext {
            now: 1_700_000_030,
            client_ip: "198.51.100.7",
            method: "GET",
            path: "/products",
            fingerprint: &fingerprint(),
        },
    ));
}

#[test]
fn attestations_expire_and_need_a_long_key() {
    let made = fingerprint();
    let token =
        create_tls_fingerprint_attestation(KEY, 1000, "198.51.100.7", "GET", "/", &made).unwrap();
    let at = |now: i64| {
        verify_tls_fingerprint_attestation(
            Some(&token),
            KEY,
            60,
            &TlsAttestationContext {
                now,
                client_ip: "198.51.100.7",
                method: "GET",
                path: "/",
                fingerprint: &made,
            },
        )
    };
    assert!(at(1060));
    assert!(at(940));
    assert!(!at(1061));
    assert!(!at(939));
    assert!(create_tls_fingerprint_attestation("short", 1000, "a", "GET", "/", &made).is_none());
    assert!(create_tls_fingerprint_attestation(KEY, 1000, "a\nb", "GET", "/", &made).is_none());
    assert!(tls_attestation_message(1000, "198.51.100.7", "GET", "/", &made).is_some());
}

#[test]
fn fingerprints_have_one_form() {
    assert_eq!(normalize_ja3(Some(" 72A589DA586844D7F0818CE684948EEA ")).as_deref(), Some(JA3));
    assert_eq!(normalize_ja3(Some("72a5")), None);
    assert_eq!(normalize_ja3(None), None);
    assert_eq!(normalize_ja4(Some("T13D1516H2_8DAAF6152771_E5627EFA2AB1")).as_deref(), Some(JA4));
    assert_eq!(normalize_ja4(Some("t13d1516h2_8daaf6152771")), None);
    assert_eq!(normalize_tls_source(Some("Envoy")).as_deref(), Some("envoy"));
    assert_eq!(normalize_tls_source(Some("bad source!")), None);
}

#[test]
fn only_trusted_proxies_speak_for_clients() {
    let proxies = TrustedProxies { cdn: None, proxies: Some("10.0.0.0/8".into()) };
    let mut headers = Headers::new();
    headers.push("x-forwarded-for", Some("198.51.100.7"));
    headers.push("x-asd-tls-ja3", Some(JA3));
    let inside = address("10.0.0.2");
    let outside = address("203.0.113.5");
    assert!(is_trusted_proxy(&inside, &proxies));
    assert!(!is_trusted_proxy(&outside, &proxies));
    assert_eq!(
        trusted_originating_client_ip(&inside, &headers, &proxies).as_deref(),
        Some("198.51.100.7")
    );
    let made = trusted_tls_fingerprint(&inside, &headers, &proxies).expect("a fingerprint");
    assert_eq!(made.ja3.as_deref(), Some(JA3));
    assert_eq!(made.source, "envoy");
    assert!(trusted_tls_fingerprint(&outside, &headers, &proxies).is_none());
    assert!(is_blockable_client_ip("203.0.113.5", &proxies));
    assert!(!is_blockable_client_ip("10.0.0.2", &proxies));
    assert!(!is_blockable_client_ip("not-an-ip", &proxies));
}

#[test]
fn direct_client_tls_claims_are_removed() {
    let payload = object(&[
        ("ip", "198.51.100.7"),
        ("method", "GET"),
        ("path", "/products"),
        ("tls_ja3", "72a589da586844d7f0818ce684948eea"),
        ("tls_fingerprint_source", "client"),
    ]);
    let output = bind_trusted_tls_fingerprint(
        payload,
        &address("198.51.100.7"),
        &Headers::new(),
        &no_proxies(),
        "",
    );
    assert!(output.get("tls_ja3").is_none());
    assert!(output.get("tls_fingerprint_source").is_none());
}

#[test]
fn trusted_envoy_values_are_bound_and_client_claims_overwritten() {
    let proxies = TrustedProxies { cdn: None, proxies: Some("10.0.0.0/8".into()) };
    let mut headers = Headers::new();
    headers.push("x-forwarded-for", Some("198.51.100.7"));
    headers.push("x-asd-tls-ja3", Some("72a589da586844d7f0818ce684948eea"));
    headers.push("x-asd-tls-ja4", Some("t13d1516h2_8daaf6152771_e5627efa2ab1"));
    let output = bind_trusted_tls_fingerprint(
        object(&[
            ("ip", "203.0.113.99"),
            ("method", "GET"),
            ("path", "/products"),
            ("tls_fingerprint_source", "client-claim"),
        ]),
        &address("10.0.0.2"),
        &headers,
        &proxies,
        "0123456789abcdef0123456789abcdef",
    );
    assert_eq!(output.get_text("ip"), Some("198.51.100.7"));
    assert_eq!(output.get_text("tls_fingerprint_source"), Some("envoy"));
    assert!(output
        .get_text("tls_fingerprint_attestation")
        .is_some_and(|token| token.starts_with("v1:")));
}

#[test]
fn bound_fingerprints_carry_the_known_attestation() {
    let proxies = TrustedProxies { cdn: None, proxies: Some("10.0.0.0/8".into()) };
    let mut headers = Headers::new();
    headers.push("x-forwarded-for", Some("198.51.100.7"));
    headers.push("x-asd-tls-ja3", Some(JA3));
    headers.push("x-asd-tls-ja4", Some(JA4));
    let output = bind_trusted_tls_fingerprint_at(
        object(&[("method", "GET"), ("path", "/products")]),
        &address("10.0.0.2"),
        &headers,
        &proxies,
        KEY,
        1_700_000_000,
    );
    assert_eq!(
        output.get_text("tls_fingerprint_attestation"),
        Some("v1:1700000000:192976122c9fbaa4cb8c2554be66f2439e020a7d470ac838f2a622b0c5829a49")
    );
}

#[test]
fn a_proxy_without_provider_says_so() {
    assert_eq!(provider_unreachable("refused").get_text("message"), Some("refused"));
    assert!(not_configured(Json::Null).get("status").is_some());
}

#[test]
fn documents_are_read() {
    let document = parse_json(br#"{"a":[1,-2,0.5,"x",null,true],"b":{"c":18446744073709551615}}"#)
        .expect("a document");
    match document.get("a") {
        Some(Json::Array(items)) => {
            assert_eq!(items.len(), 6);
            assert_eq!(items[0].as_i64(), Some(1));
            assert_eq!(items[1].as_i64(), Some(-2));
            assert!(matches!(&items[2], Json::Decimal(s) if s == "0.5"));
            assert_eq!(items[3].as_text(), Some("x"));
            assert!(matches!(items[4], Json::Null));
            assert!(matches!(items[5], Json::Bool(true)));
        }
        _ => panic!("an array"),
    }
    let big = document.get("b").and_then(|b| b.get("c")).expect("a number");
    assert!(matches!(big, Json::Unsigned(n) if *n == u64::MAX));
    assert!(parse_json(b"{").is_none());
}

#[test]
fn identifiers_and_the_clock_are_sane() {
    let id = random_uuid();
    assert_eq!(id.len(), 36);
    assert_eq!(id.matches('-').count(), 4);
    assert_ne!(id, random_uuid());
    assert!(unix_seconds() > 1_700_000_000);
    assert_eq!(unix_seconds_at(Some(1_700_000_000)), 1_700_000_000);
    assert_eq!(unix_seconds_at(Some(u64::MAX)), u64::MAX);
    assert_eq!(unix_seconds_at(None), 0);
}
