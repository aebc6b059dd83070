//! Sign-on, second factors, passkeys and the manual changes of administrators.
use base64::Engine;
use jsonwebtoken::{encode, Algorithm, EncodingKey, Header};
use hmac::Mac;
use scraping_defense::admin::{
    block, block_stats, claim_matches, claim_values, gdpr_deletion, gdpr_report, internal_error,
    is_administrator_at, metrics_json, oidc_user, oidc_user_at, operation_queued, plugins,
    provider_refusal, saml_user, session_key, settings_document, sso_mode, sso_user,
    storage_required, unblock, update_plugins, verified_user, OidcRules, SamlRules, SsoMode,
};
use scraping_defense::blocklist::{BlocklistState, BlocklistStats, IpAction};
use scraping_defense::headers::Headers;
use scraping_defense::json::Json;
use scraping_defense::mfa::{
    admin_user, backup_answer, backup_codes_answer, hash_secret, new_backup_codes, random_token,
    remaining_answer, totp_answer, totp_code, totp_setup_answer, use_backup_code, verify_totp,
    verify_totp_at,
};
use scraping_defense::oidc::{
    accept_discovery, admit_token, decode_with_key, fetch_error, find_key, parse_algorithms,
    is_verifier, parse_provider_url, read_key_set, safe_url, validate_jwk, validate_jwks, verify_next,
    within_document_limit, Decoded, FetchFault, JwksCache, KeyFault, OidcConfig, OidcError,
    OidcSettings, ProviderKey, VerifyEvent, VerifyStep,
};
use scraping_defense::origin::TrustedProxies;
use scraping_defense::outside::parse_json;
use scraping_defense::passkeys::{
    accept_authentication, advance, begin_authentication, begin_registration, begun_answer,
    ceremony_of, check_authentication_state, check_registration_state, check_user_id,
    complete_authentication, complete_registration, match_passkey, needs_administrator,
    new_session, purpose, read_passkeys, refuse_step,
    registered_answer, session_answer, steps_of, Ceremony, PasskeyError, PasskeyService,
    PasskeySettings, Progress, Step,
};

fn read(text: &str) -> Json {
    parse_json(text.as_bytes()).expect("a document")
}

fn rules() -> OidcRules {
    OidcRules {
        token_header: None,
        jwt_secret: Some("oidc-secret".into()),
        issuer: Some("https://id.test".into()),
        audience: Some("admin-ui".into()),
        required_role: Some("ops".into()),
        required_group: None,
    }
}

fn signed(payload: &str, secret: &str) -> String {
    let engine = base64::engine::general_purpose::URL_SAFE_NO_PAD;
    let header = engine.encode(r#"{"alg":"HS256","typ":"JWT"}"#);
    let payload = engine.encode(payload);
    let input = format!("{header}.{payload}");
    let mut mac = hmac::Hmac::<sha2::Sha256>::new_from_slice(secret.as_bytes()).unwrap();
    mac.update(input.as_bytes());
    let signature = engine.encode(mac.finalize().into_bytes());
    format!("{input}.{signature}")
}

fn bearer(token: &str) -> Headers {
    let mut headers = Headers::new();
    let value = format!("Bearer {token}");
    headers.push("Authorization", Some(&value));
    headers
}

#[test]
fn signed_claims_sign_on() {
    let token = signed(
        r#"{"iss":"https://id.test","aud":["x","admin-ui"],"roles":"ops, dev","groups":["g",1],"email":"a@b","exp":4102444800}"#,
        "oidc-secret",
    );
    let user = oidc_user(&bearer(&token), &rules()).expect("a user");
    assert_eq!(user.get_text("username"), Some("a@b"));
    assert_eq!(user.get_text("provider"), Some("oidc"));
    assert_eq!(claim_values(&user, "roles"), vec!["ops", "dev", "g"]);

    assert_eq!(oidc_user(&Headers::new(), &rules()).unwrap_err().status, 401);
    assert_eq!(oidc_user_at(&bearer(&token), &rules(), 4102444800).unwrap_err().status, 401);
    let mut unset = rules();
    unset.jwt_secret = None;
    let refused = oidc_user(&bearer(&token), &unset).unwrap_err();
    assert_eq!(refused.status, 500);
    assert_eq!(refused.body.get_text("message"), Some("OIDC JWT secret not configured"));
    let mut other = rules();
    other.issuer = Some("https://other.test".into());
    assert_eq!(oidc_user(&bearer(&token), &other).unwrap_err().status, 401);
    let mut audience = rules();
    audience.audience = Some("elsewhere".into());
    assert_eq!(oidc_user(&bearer(&token), &audience).unwrap_err().status, 401);
    let mut role = rules();
    role.required_role = Some("root".into());
    let forbidden = oidc_user(&bearer(&token), &role).unwrap_err();
    assert_eq!(forbidden.status, 403);
    assert_eq!(forbidden.body.get_text("message"), Some("Insufficient role"));
    let mut group = rules();
    group.required_group = Some("h".into());
    let refused = oidc_user(&bearer(&token), &group).unwrap_err();
    assert_eq!(refused.body.get_text("message"), Some("Insufficient group"));

    let mut header = Headers::new();
    header.push("x-sso-token", Some(&token));
    assert!(oidc_user(&header, &rules()).is_ok());
}

#[test]
fn users_without_a_name_are_unknown() {
    let mut open = rules();
    open.required_role = None;
    let user = verified_user(&read(r#"{"preferred_username":7,"sub":"x"}"#), &open).unwrap();
    assert_eq!(user.get_text("username"), Some("unknown"));
    let user = verified_user(&read(r#"{"sub":"x"}"#), &open).unwrap();
    assert_eq!(user.get_text("username"), Some("x"));
    assert!(claim_matches(&read(r#"{"aud":"a"}"#), "aud", "a"));
    assert!(!claim_matches(&read(r#"{"aud":["b"]}"#), "aud", "a"));
}

#[test]
fn the_proxy_in_front_signs_on_by_headers() {
    let saml = SamlRules {
        user_header: None,
        groups_header: None,
        required_group: Some("ops".into()),
    };
    let mut headers = Headers::new();
    headers.push("X-SSO-User", Some("alex"));
    assert_eq!(saml_user(&headers, &saml).unwrap_err().status, 403);
    headers.push("x-sso-groups", Some("dev, ops"));
    let user = saml_user(&headers, &saml).expect("a user");
    assert_eq!(user.get_text("username"), Some("alex"));
    assert_eq!(saml_user(&Headers::new(), &saml).unwrap_err().status, 401);
    assert_eq!(sso_mode(None, None), SsoMode::Disabled);
    assert_eq!(sso_mode(Some("true"), None), SsoMode::Oidc);
    assert_eq!(sso_mode(Some("true"), Some("SAML")), SsoMode::Saml);
    assert_eq!(sso_mode(Some("true"), Some("ldap")), SsoMode::Unsupported);
    let disabled = sso_user(SsoMode::Disabled, &headers, &rules(), &saml, 0).unwrap();
    assert_eq!(disabled.get_text("status"), Some("disabled"));
    assert!(sso_user(SsoMode::Saml, &headers, &rules(), &saml, 0).is_ok());
    let refused = sso_user(SsoMode::Unsupported, &headers, &rules(), &saml, 0).unwrap_err();
    assert_eq!(refused.status, 400);
}

#[test]
fn sessions_are_stored_under_their_hash() {
    let headers = bearer("secret-session-token");
    let key = session_key(&headers).expect("a key");
    assert_ne!(key, "secret-session-token");
    assert_eq!(key, hash_secret("secret-session-token"));
    assert!(is_administrator_at(&headers, None, None, &vec![key.clone()], 0));
    assert!(!is_administrator_at(&headers, None, None, &vec![], 0));
    assert!(!is_administrator_at(&Headers::new(), None, None, &vec![key], 0));
}

#[test]
fn token_hash_does_not_store_bearer_secret() {
    let token = "secret-session-token";
    assert_ne!(hash_secret(token), token);
    assert_eq!(hash_secret(token), hash_secret(token));
}

#[test]
fn hashes_match_the_known_vector() {
    assert_eq!(
        hash_secret("abc"),
        "ba7816bf8f01cfea414140de5dae2223b00361a396177a9cb410ff61f20015ad"
    );
}

#[test]
fn one_time_passwords_match_the_known_vectors() {
    let secret = b"12345678901234567890";
    assert_eq!(totp_code(secret, 1), "287082");
    assert_eq!(totp_code(secret, 37_037_036), "081804");
    assert_eq!(totp_code(secret, 0), "755224");
    let secret_hex = hex::encode(secret);
    assert!(verify_totp_at(&secret_hex, "287082", 0));
    assert!(verify_totp_at(&secret_hex, "287082", 2));
    assert!(!verify_totp_at(&secret_hex, "287082", 3));
    assert!(!verify_totp_at("zz", "287082", 1));
    assert!(!verify_totp(&secret_hex, "not-a-code"));
}

#[test]
fn backup_codes_are_used_up() {
    let (codes, hashes) = new_backup_codes();
    assert_eq!(codes.len(), 10);
    assert!(codes.iter().all(|code| hex::decode(code).is_ok_and(|bytes| bytes.len() == 4)));
    assert_eq!(hashes[3], hash_secret(&codes[3]));
    let (valid, left) = use_backup_code(&hashes, &codes[3]);
    assert!(valid);
    assert_eq!(left.len(), 9);
    assert!(!use_backup_code(&left, &codes[3]).0);
    assert!(use_backup_code(&left, &codes[4]).0);
    assert_eq!(random_token(32).len(), 64);
    assert_eq!(totp_answer(false).get_text("status"), Some("error"));
    assert_eq!(backup_answer(true, 9).get("remaining").and_then(|n| n.as_i64()), Some(9));
    assert_eq!(totp_setup_answer("u", "s").get("digits").and_then(|n| n.as_i64()), Some(6));
    assert_eq!(backup_codes_answer(&codes, "u").get_text("user"), Some("u"));
    assert_eq!(remaining_answer(9, "u").get("remaining").and_then(|n| n.as_i64()), Some(9));
    assert_eq!(admin_user(Some(" "), None), "admin");
    assert_eq!(admin_user(None, Some("root")), "root");
}

#[test]
fn manual_blocks_are_recorded() {
    let mut state = BlocklistState::new();
    let none = TrustedProxies { cdn: None, proxies: None };
    let asked = IpAction { ip: Some("198.51.100.3".into()), reason: Some("why".into()) };
    assert_eq!(block(&mut state, false, &asked, &none).0.unwrap_err().status, 401);
    assert!(!state.knows("198.51.100.3"));
    let (answer, event) = block(&mut state, true, &asked, &none);
    assert_eq!(answer.unwrap().get_text("status"), Some("success"));
    assert_eq!(event.unwrap().payload.get_text("reason"), Some("why"));
    assert!(state.knows("198.51.100.3"));
    let (_, event) = unblock(&mut state, true, &asked);
    assert_eq!(event.unwrap().event_type, "admin_unblock_ip");
    assert!(!state.knows("198.51.100.3"));
    let nobody = IpAction { ip: None, reason: None };
    let (answer, event) = block(&mut state, true, &nobody, &none);
    assert_eq!(answer.unwrap().get_text("message"), Some("ip required"));
    assert!(event.is_none());
    assert!(unblock(&mut state, true, &nobody).1.is_none());
}

#[test]
fn administrators_are_shown_documents() {
    assert_eq!(update_plugins(false).0.unwrap_err().status, 401);
    assert_eq!(update_plugins(true).1.unwrap().event_type, "admin_update_plugins");
    assert!(plugins().get("dynamic_plugins").is_some());
    assert_eq!(settings_document(8004).get("port").and_then(|n| n.as_i64()), Some(8004));
    let stats = BlocklistStats { blocked_count: 2, flagged_count: 1 };
    assert_eq!(metrics_json(stats).get("blocked_count").and_then(|n| n.as_i64()), Some(2));
    assert_eq!(block_stats(stats).get("flagged_count").and_then(|n| n.as_i64()), Some(1));
    assert_eq!(gdpr_deletion().1.event_type, "gdpr_deletion_requested");
    assert_eq!(gdpr_report().get_text("status"), Some("ok"));
    let (answer, event) = operation_queued("rules-fetch");
    assert_eq!(answer.get_text("operation"), Some("rules-fetch"));
    assert_eq!(event.payload.get_text("operation"), Some("rules-fetch"));
    assert_eq!(storage_required().status, 503);
    assert_eq!(internal_error("x").status, 500);
    assert_eq!(provider_refusal(&OidcError::Unauthorized).status, 401);
    assert_eq!(provider_refusal(&OidcError::Unavailable("x".into())).status, 503);
}

#[test]
fn symmetric_algorithms_are_never_accepted_for_jwks() {
    assert!(parse_algorithms("RS256,ES256").is_ok());
    assert!(parse_algorithms("RS256,HS256").is_err());
    assert!(parse_algorithms("").is_err());
}

#[test]
fn provider_urls_require_https_except_for_loopback() {
    assert!(parse_provider_url("issuer", "https://id.example.test", false).is_ok());
    assert!(parse_provider_url("issuer", "http://localhost:9000", false).is_ok());
    assert!(parse_provider_url("issuer", "http://127.0.0.1:9000", false).is_ok());
    assert!(parse_provider_url("issuer", "http://id.example.test", false).is_err());
    assert!(parse_provider_url("issuer", "https://user@id.example.test", false).is_err());
}

#[test]
fn bracketed_loopback_addresses_are_local() {
    assert!(parse_provider_url("issuer", "http://[::1]:9000", false).is_ok());
    assert!(parse_provider_url("issuer", "http://[::2]:9000", false).is_err());
    assert!(parse_provider_url("issuer", "http://[::ffff:127.0.0.1]:9000", false).is_err());
    assert!(parse_provider_url("issuer", "http://[::2]:9000", true).is_ok());
}

#[test]
fn short_edwards_keys_verify_nothing() {
    let config = OidcConfig::from_settings(&oidc_settings()).unwrap().expect("a provider");
    let token = provider_token(0, "a", "admin-ui");
    let source = r#"{"kty":"OKP","crv":"Ed25519","kid":"a","alg":"EdDSA","x":"AAAA"}"#;
    let short = ProviderKey::read(source).expect("a key");
    assert!(matches!(decode_with_key(&config, &token, "EdDSA", &short), Decoded::Refused));
    assert!(!is_verifier(&read(source), "EdDSA"));
    assert!(is_verifier(&read(r#"{"kty":"RSA","kid":"a"}"#), "RS256"));
    assert!(!is_verifier(&read(r#"{"kty":"OKP","kid":"a"}"#), "EdDSA"));
    assert!(!is_verifier(&read(r#"{"kty":"OKP","kid":"a","x":"!"}"#), "EdDSA"));
    let whole = provider_key(0, "a").copy();
    assert!(matches!(decode_with_key(&config, &token, "EdDSA", &whole), Decoded::Verified(_)));
}

#[test]
fn key_sets_are_read_from_the_answer_of_a_provider() {
    let x = "11qYAYKxCrfVS_7TyWQHOg7hcvPapiMlrwIaaPcHURo";
    let key = |kid: &str| format!(r#"{{"kty":"OKP","crv":"Ed25519","kid":"{kid}","x":"{x}"}}"#);
    let set = format!(r#"{{"keys":[{},{}]}}"#, key("a"), key("b"));
    let keys = read_key_set(set.as_bytes(), "https://id.test/keys").expect("keys");
    assert_eq!(keys.len(), 2);
    assert_eq!(find_key(&keys, "b"), Some(1));
    let twice = format!(r#"{{"keys":[{},{}]}}"#, key("a"), key("a"));
    assert!(matches!(
        read_key_set(twice.as_bytes(), "https://id.test/keys"),
        Err(OidcError::Unavailable(m)) if m == "OIDC JWKS contained duplicate kid values"
    ));
    assert!(matches!(
        read_key_set(br#"{"keys":[]}"#, "https://id.test/keys"),
        Err(OidcError::Unavailable(m)) if m == "OIDC JWKS document did not contain keys"
    ));
    assert!(matches!(
        read_key_set(b"{}", "https://id.test/keys?a=b"),
        Err(OidcError::Unavailable(m))
            if m.starts_with("OIDC provider returned invalid JSON from https://id.test/keys: ")
    ));
}

fn oidc_settings() -> OidcSettings {
    OidcSettings {
        enabled: Some("true".into()),
        mode: None,
        issuer: Some(" https://id.example.test ".into()),
        audience: Some("admin-ui".into()),
        allow_http: None,
        discovery_url: None,
        jwks_url: None,
        algorithms: None,
        timeout_seconds: Some("1".into()),
        cache_seconds: None,
        clock_skew_seconds: Some("999".into()),
    }
}

#[test]
fn providers_are_configured_from_settings() {
    let config = OidcConfig::from_settings(&oidc_settings()).unwrap().expect("a provider");
    assert_eq!(config.issuer, "https://id.example.test");
    assert_eq!(config.discovery_url, "https://id.example.test/.well-known/openid-configuration");
    assert_eq!(config.allowed_algorithms.len(), 9);
    assert_eq!(config.timeout_seconds, 2);
    assert_eq!(config.cache_seconds, 300);
    assert_eq!(config.leeway_seconds, 300);
    let mut off = oidc_settings();
    off.enabled = None;
    assert!(OidcConfig::from_settings(&off).unwrap().is_none());
    let mut saml = oidc_settings();
    saml.mode = Some("saml".into());
    assert!(OidcConfig::from_settings(&saml).unwrap().is_none());
    let mut nobody = oidc_settings();
    nobody.issuer = Some(" ".into());
    assert_eq!(
        OidcConfig::from_settings(&nobody).unwrap_err(),
        "ADMIN_UI_OIDC_ISSUER is required when OIDC SSO is enabled"
    );
    let mut query = oidc_settings();
    query.issuer = Some("https://id.example.test/?a=b".into());
    assert_eq!(
        OidcConfig::from_settings(&query).unwrap_err(),
        "ADMIN_UI_OIDC_ISSUER cannot contain a query string or fragment"
    );
    let mut plain = oidc_settings();
    plain.jwks_url = Some("http://id.example.test/keys".into());
    assert!(OidcConfig::from_settings(&plain).unwrap_err().starts_with("ADMIN_UI_OIDC_JWKS_URL"));
    let mut unknown = oidc_settings();
    unknown.algorithms = Some("RS256,XX".into());
    assert_eq!(OidcConfig::from_settings(&unknown).unwrap_err(), "InvalidAlgorithmName");
    assert_eq!(
        accept_discovery(&config, "https://id.example.test", "https://id.example.test/keys")
            .unwrap(),
        "https://id.example.test/keys"
    );
    assert!(matches!(
        accept_discovery(&config, "https://evil.test", "https://id.example.test/keys"),
        Err(OidcError::Unavailable(_))
    ));
}

/// Two published test keys: the seed and the public key.
const SEEDS: [(&str, &str); 2] = [
    (
        "9d61b19deffd5a60ba844af492ec2cc44449c5697b326919703bac031cae7f60",
        "d75a980182b10ab7d54bfed3c964073a0ee172f3daa62325af021a68f707511a",
    ),
    (
        "4ccd089b28ff96da9db6c346ec114e0f5b8a319f35aba624da8cf6ed4fb8a6fb",
        "3d4017c3e843895a92b70aa74d1b7ebc9c982ccf2ec4968cc0cd55f12af4660c",
    ),
];

fn signing_key(n: usize) -> EncodingKey {
    let der = format!("302e020100300506032b657004220420{}", SEEDS[n].0);
    EncodingKey::from_ed_der(&hex::decode(der).unwrap())
}

fn provider_key(n: usize, kid: &str) -> ProviderKey {
    let engine = base64::engine::general_purpose::URL_SAFE_NO_PAD;
    let x = engine.encode(hex::decode(SEEDS[n].1).unwrap());
    let source = format!(
        r#"{{"kty":"OKP","crv":"Ed25519","kid":"{kid}","alg":"EdDSA","use":"sig","key_ops":["verify"],"x":"{x}"}}"#
    );
    ProviderKey::read(&source).expect("a key")
}

fn provider_token(n: usize, kid: &str, audience: &str) -> String {
    let mut header = Header::new(Algorithm::EdDSA);
    header.kid = Some(kid.to_string());
    let now = jsonwebtoken::get_current_timestamp();
    let claims = format!(
        r#"{{"sub":"admin","iss":"https://id.example.test","aud":"{audience}","exp":{},"nbf":{}}}"#,
        now + 300,
        now - 1
    );
    let claims: serde_json::Value = serde_json::from_str(&claims).unwrap();
    encode(&header, &claims, &signing_key(n)).expect("a token")
}

/// Verifies a token against the keys that each fetch brings.
fn verify(fetches: &[&[(usize, &str)]], token: &str) -> Result<Json, OidcError> {
    let config = OidcConfig::from_settings(&oidc_settings()).unwrap().expect("a provider");
    let Some((algorithm, kid)) = admit_token(token, &config.allowed_algorithms) else {
        return Err(OidcError::Unauthorized);
    };
    let mut keys: Vec<ProviderKey> = Vec::new();
    let mut fetched = 0;
    let mut found = None;
    let mut claims = None;
    let mut step = VerifyStep::Refresh;
    loop {
        let event = match step {
            VerifyStep::Refresh | VerifyStep::ForceRefresh | VerifyStep::ForceAfterSignature => {
                match fetches.get(fetched) {
                    Some(set) => {
                        fetched += 1;
                        keys = set.iter().map(|(n, kid)| provider_key(*n, kid)).collect();
                        match validate_jwks(&keys) {
                            Ok(()) => VerifyEvent::Refreshed,
                            Err(_) => VerifyEvent::RefreshFailed,
                        }
                    }
                    None => VerifyEvent::RefreshFailed,
                }
            }
            VerifyStep::Find | VerifyStep::FindAgain | VerifyStep::FindRotated => {
                found = find_key(&keys, &kid);
                if found.is_some() { VerifyEvent::KeyFound } else { VerifyEvent::KeyMissing }
            }
            VerifyStep::Check | VerifyStep::CheckRotated => {
                match decode_with_key(&config, token, &algorithm, &keys[found.unwrap()]) {
                    Decoded::Verified(document) => {
                        claims = Some(document);
                        VerifyEvent::Verified
                    }
                    Decoded::BadSignature => VerifyEvent::BadSignature,
                    Decoded::Refused => VerifyEvent::Refused,
                }
            }
            VerifyStep::Accepted => return Ok(claims.expect("claims")),
            VerifyStep::Unauthorized => return Err(OidcError::Unauthorized),
            VerifyStep::Unavailable => return Err(OidcError::Unavailable("keys".into())),
        };
        step = verify_next(step, event);
    }
}

#[test]
fn rotated_provider_keys_verify_tokens() {
    let first = provider_token(0, "key-one", "admin-ui");
    let claims = verify(&[&[(0, "key-one")]], &first).expect("valid first key");
    assert_eq!(claims.get_text("sub"), Some("admin"));

    let rotated = provider_token(1, "key-two", "admin-ui");
    assert!(verify(&[&[(0, "key-one")], &[(1, "key-two")]], &rotated).is_ok());
    assert!(verify(&[&[(0, "key-two")], &[(1, "key-two")]], &rotated).is_ok());
    assert!(matches!(
        verify(&[&[(0, "key-two")], &[(0, "key-two")]], &rotated),
        Err(OidcError::Unauthorized)
    ));
    assert!(matches!(
        verify(&[&[(0, "key-one")], &[(0, "key-one")]], &rotated),
        Err(OidcError::Unauthorized)
    ));
    assert!(matches!(verify(&[], &rotated), Err(OidcError::Unavailable(_))));

    let wrong_audience = provider_token(1, "key-two", "other-service");
    assert!(matches!(
        verify(&[&[(1, "key-two")]], &wrong_audience),
        Err(OidcError::Unauthorized)
    ));
    let shared = signed(r#"{"sub":"admin"}"#, "secret");
    assert!(matches!(verify(&[&[(0, "key-one")]], &shared), Err(OidcError::Unauthorized)));
}

#[test]
fn keys_are_checked_before_they_are_used() {
    let key = |text: &str| read(text);
    assert!(validate_jwk(&key(r#"{"kty":"RSA"}"#), "RS256").is_ok());
    assert_eq!(
        validate_jwk(&key(r#"{"kty":"oct"}"#), "RS256"),
        Err(KeyFault::InvalidAlgorithm)
    );
    assert_eq!(
        validate_jwk(&key(r#"{"kty":"RSA","alg":"RS512"}"#), "RS256"),
        Err(KeyFault::InvalidAlgorithm)
    );
    assert_eq!(
        validate_jwk(&key(r#"{"kty":"RSA","use":"enc"}"#), "RS256"),
        Err(KeyFault::InvalidKeyFormat)
    );
    assert_eq!(
        validate_jwk(&key(r#"{"kty":"RSA","key_ops":["sign"]}"#), "RS256"),
        Err(KeyFault::InvalidKeyFormat)
    );
    let unnamed = ProviderKey::read(r#"{"kty":"RSA"}"#).unwrap();
    assert!(matches!(
        validate_jwks(&vec![unnamed]),
        Err(OidcError::Unavailable(m)) if m == "OIDC JWKS contained a key without a kid"
    ));
    assert!(matches!(
        validate_jwks(&vec![]),
        Err(OidcError::Unavailable(m)) if m == "OIDC JWKS document did not contain keys"
    ));
    assert!(matches!(
        validate_jwks(&vec![provider_key(0, "a"), provider_key(1, "a")]),
        Err(OidcError::Unavailable(m)) if m == "OIDC JWKS contained duplicate kid values"
    ));
    assert!(ProviderKey::read("{").is_none());
}

#[test]
fn keys_are_fetched_when_they_are_stale() {
    let empty = JwksCache::new();
    assert!(empty.refresh_if_stale(false, 0, 1000));
    let fresh = empty.fetched(false, 100);
    assert!(!fresh.refresh_if_stale(false, 1099, 1000));
    assert!(fresh.refresh_if_stale(false, 1100, 1000));
    assert!(fresh.refresh_if_stale(true, 100, 1000));
    let forced = fresh.fetched(true, 200);
    assert!(!forced.refresh_if_stale(true, 5199, 1000));
    assert!(forced.refresh_if_stale(true, 5200, 1000));
    assert!(within_document_limit(None));
    assert!(within_document_limit(Some(1_048_576)));
    assert!(!within_document_limit(Some(1_048_577)));
    assert_eq!(safe_url("https://a/b?c=d#e"), "https://a/b");
    assert_eq!(safe_url("https://a/b#e?f"), "https://a/b");
    assert!(matches!(
        fetch_error(FetchFault::TooLarge, "https://a/b?token=t", "ignored"),
        OidcError::Unavailable(m) if m == "OIDC provider document exceeded size limit at https://a/b"
    ));
    assert!(matches!(
        fetch_error(FetchFault::RequestFailed, "https://a/b", "refused"),
        OidcError::Unavailable(m) if m == "OIDC provider request failed for https://a/b: refused"
    ));
    for fault in [FetchFault::ErrorStatus, FetchFault::Unreadable, FetchFault::InvalidJson] {
        assert!(matches!(
            fetch_error(fault, "u", "e"),
            OidcError::Unavailable(m) if m.ends_with("u: e")
        ));
    }
}

fn passkey_settings() -> PasskeySettings {
    PasskeySettings {
        origin: None,
        id: None,
        name: None,
        allow_subdomains: None,
        allow_any_port: None,
        additional_origins: None,
        challenge_ttl_seconds: None,
        session_ttl_seconds: None,
    }
}

#[test]
fn defaults_form_a_valid_local_relying_party() {
    let service = PasskeyService::from_settings(&passkey_settings())
        .expect("default WebAuthn config should be valid");
    assert_eq!(service.challenge_ttl_seconds, 300);
    assert_eq!(service.session_ttl_seconds, 3600);
    assert_eq!(service.party.id, "localhost");
    assert_eq!(service.party.origin, "http://localhost:8004");
}

#[test]
fn relying_parties_are_checked() {
    let mut bad = passkey_settings();
    bad.origin = Some("nonsense".into());
    assert!(matches!(PasskeyService::from_settings(&bad), Err(PasskeyError::Origin(_))));
    let mut other = passkey_settings();
    other.id = Some("example.com".into());
    assert!(matches!(PasskeyService::from_settings(&other), Err(PasskeyError::Party(_))));
    let mut above = passkey_settings();
    above.origin = Some("https://admin.example.com".into());
    above.id = Some("example.com".into());
    assert!(PasskeyService::from_settings(&above).is_ok());
    let mut lookalike = passkey_settings();
    lookalike.origin = Some("https://myexample.com".into());
    lookalike.id = Some("example.com".into());
    assert!(matches!(PasskeyService::from_settings(&lookalike), Err(PasskeyError::Party(_))));
    let mut extra = passkey_settings();
    extra.additional_origins = Some("https://a.test, nonsense".into());
    assert!(matches!(
        PasskeyService::from_settings(&extra),
        Err(PasskeyError::AdditionalOrigin(origin, _)) if origin == "nonsense"
    ));
}

#[test]
fn older_paths_begin_the_same_ceremonies() {
    assert_eq!(ceremony_of("/passkey/login"), Some(Ceremony::BeginAuthentication));
    assert_eq!(ceremony_of("/passkey/login"), ceremony_of("/webauthn/login/begin"));
    assert_eq!(ceremony_of("/passkey/register"), Some(Ceremony::BeginRegistration));
    assert_eq!(ceremony_of("/passkey/register"), ceremony_of("/webauthn/register/begin"));
    assert_eq!(ceremony_of("/webauthn/login/complete"), Some(Ceremony::CompleteAuthentication));
    assert_eq!(ceremony_of("/webauthn/register/complete"), Some(Ceremony::CompleteRegistration));
    assert_eq!(ceremony_of("/passkey"), None);
    assert!(needs_administrator(Ceremony::BeginRegistration));
    assert!(!needs_administrator(Ceremony::BeginAuthentication));
}

#[test]
fn stored_identifiers_are_read_in_each_notation() {
    for id in [
        "67e55044-10b1-426f-9247-bb680e5fe0c8",
        "67E5504410B1426F9247BB680E5FE0C8",
        "{67e55044-10b1-426f-9247-bb680e5fe0c8}",
        "URN:uuid:67e55044-10b1-426f-9247-bb680e5fe0c8",
    ] {
        assert!(check_user_id(id).is_ok(), "{id}");
    }
    for id in ["", "nobody", "67e55044-10b1-426f-9247-bb680e5fe0cg", "67e55044010b1-426f-9247-bb680e5fe0c8"] {
        assert_eq!(check_user_id(id).unwrap_err().status, 500, "{id}");
    }
}

#[test]
fn ceremonies_begin_with_a_challenge() {
    let service = PasskeyService::from_settings(&passkey_settings()).unwrap();
    let id = "67e55044-10b1-426f-9247-bb680e5fe0c8";
    let started = begin_registration(&service, id, "admin", &vec![]).expect("a challenge");
    let key = started.options.get("publicKey").expect("options");
    let kept = read(&started.state);
    assert!(key.get_text("challenge").is_some());
    assert_eq!(
        kept.get("rs").and_then(|rs| rs.get_text("challenge")),
        key.get_text("challenge"),
    );
    assert_eq!(key.get("rp").and_then(|rp| rp.get_text("id")), Some("localhost"));
    let again = begin_registration(&service, id, "admin", &vec![]).expect("a challenge");
    assert_ne!(started.state, again.state);
    assert!(check_registration_state(&started.state).is_ok());
    assert_eq!(check_registration_state("{}").unwrap_err().status, 500);
    assert_eq!(check_authentication_state("{}").unwrap_err().status, 500);
    assert_eq!(
        begin_registration(&service, "nobody", "admin", &vec![]).unwrap_err().status,
        400
    );
    let junk = vec!["{}".to_string()];
    assert_eq!(begin_registration(&service, id, "admin", &junk).unwrap_err().status, 500);
    assert_eq!(read_passkeys(&junk).unwrap_err().status, 500);
    let nobody = begin_authentication(&service, &vec![]).unwrap_err();
    assert_eq!(nobody.status, 404);
    assert_eq!(nobody.body.get_text("message"), Some("no passkeys are registered for this user"));
    let refused = complete_registration(&service, "{}", &started.state).unwrap_err();
    assert_eq!(
        refused.body.get_text("message"),
        Some("WebAuthn registration response was not valid")
    );
    let refused = complete_authentication(&service, "{}", "{}", &vec![]).unwrap_err();
    assert_eq!(
        refused.body.get_text("message"),
        Some("WebAuthn authentication response was not valid")
    );
    let unknown = accept_authentication(Some("{}"), &vec![]).unwrap_err();
    assert_eq!(unknown.body.get_text("message"), Some("authentication used an unknown credential"));
    assert!(match_passkey(&junk, "{}").is_none());
}

#[test]
fn ceremonies_go_step_by_step() {
    let steps = steps_of(Ceremony::CompleteAuthentication);
    assert_eq!(steps.last(), Some(&Step::CreateSession));
    for (done, step) in steps.iter().enumerate() {
        assert_eq!(
            advance(Ceremony::CompleteAuthentication, done, false),
            Progress::Failed(*step)
        );
        let next = advance(Ceremony::CompleteAuthentication, done, true);
        match steps.get(done + 1) {
            Some(after) => assert_eq!(next, Progress::Do(*after)),
            None => assert_eq!(next, Progress::Done),
        }
    }
    let refused = refuse_step(Ceremony::CompleteRegistration, Step::CountPasskey);
    assert_eq!(refused.status, 409);
    assert_eq!(refuse_step(Ceremony::BeginRegistration, Step::Storage).status, 503);
    assert_eq!(refuse_step(Ceremony::CompleteRegistration, Step::FindState).status, 400);
    assert_eq!(purpose(Ceremony::BeginRegistration), "webauthn-registration");
    let (token, hash) = new_session();
    assert_eq!(token.len(), 64);
    assert_eq!(hex::encode(hex::decode(&token).unwrap()), token);
    assert_eq!(hash, hash_secret(&token));
    let answer = session_answer("admin", &token, 3600);
    assert_eq!(answer.get("expires_in").and_then(|n| n.as_i64()), Some(3600));
    assert_eq!(answer.get_text("token_type"), Some("Bearer"));
    assert!(registered_answer("admin").get("registered").is_some());
    assert!(begun_answer("admin", Json::Null).get("options").is_some());
}
