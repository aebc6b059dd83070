//! Webhooks, the blocklist, challenges, providers, edge operations, paid
//! crawling and the audit trail.
use hmac::Mac;
use scraping_defense::audit::{
    event, event_limit, jsonl_records, newest_events, AuditError, AuditStore,
};
use scraping_defense::blocklist::{
    block_all, flag_key, BlocklistState, BlocklistStats, IpAction,
};
use scraping_defense::captcha::{is_form_content, sign, solve, solve_at, solved, verify, CaptchaState};
use scraping_defense::crawl::{
    crawler_gateway_payload, crawler_token, credit_answer, gateway_error, is_forwardable_request_header,
    is_hop_by_hop, is_returned_header, page_url, payment_gateway_payload,
    payment_gateway_payload_with, preflight, proxy, refusal_of, registration_answer,
    validate_payment, CreditResult, GatewayResult, Payment, ProxyEvent, ProxyFailure, ProxyState,
};
use scraping_defense::edge::{
    append_chunk, check_answer, ddos_status, default_robots, fetch_answer, fetch_target,
    fetched_text, local_purge_answer, metadata_from_query, pin_address, purge_answer,
    purge_request, record_waf_reload, robots_url, score_answer, tls_status, valid_url_text,
    waf_answer, ScoreQuery,
};
use scraping_defense::detection::{decide, FrequencyFeatures, Standing};
use scraping_defense::headers::Headers;
use scraping_defense::ip::{ip_string, parse_ip};
use scraping_defense::json::Json;
use scraping_defense::origin::TrustedProxies;
use scraping_defense::outside::{parse_json, UriParts};
use scraping_defense::providers::{provider_answer, ModelProvider, ProviderKind};
use scraping_defense::reply::Reply;
use scraping_defense::settings::{
    env_bool, env_i32, env_list, env_prefix, env_solid, env_string, env_u16, env_u64,
    env_u64_within, health, message, metrics_text, observability_section, port_variable,
    secret_or_variable, store_enabled, tenant_key, ServiceConfig,
};
use scraping_defense::telemetry::{
    check_export_endpoint, export_endpoint, judge_endpoint, EndpointFault,
};
use scraping_defense::webhook::{
    change_of, ListChange,
    blocked_document, list_auth, report, sync_blocklist, webhook, WebhookAction,
};

fn no_proxies() -> TrustedProxies {
    TrustedProxies { cdn: None, proxies: None }
}

fn read(text: &str) -> Json {
    parse_json(text.as_bytes()).expect("a document")
}

/// A document as the JSON crate holds it, for comparison.
fn value(document: &Json) -> serde_json::Value {
    match document {
        Json::Null => serde_json::Value::Null,
        Json::Bool(b) => serde_json::Value::from(*b),
        Json::Unsigned(n) => serde_json::Value::from(*n),
        Json::Signed(n) => serde_json::Value::from(*n),
        Json::Decimal(s) => serde_json::from_str(s).expect("a number"),
        Json::Text(s) => serde_json::Value::from(s.as_str()),
        Json::Array(items) => serde_json::Value::Array(items.iter().map(value).collect()),
        Json::Object(members) => serde_json::Value::Object(
            members.entries.iter().map(|(name, item)| (name.clone(), value(item))).collect(),
        ),
    }
}

fn same(document: &Json, expected: &str) {
    let expected: serde_json::Value = serde_json::from_str(expected).expect("a document");
    assert_eq!(value(document), expected);
}

fn action(kind: &str, ip: Option<&str>, reason: Option<&str>) -> WebhookAction {
    WebhookAction {
        action: kind.to_string(),
        ip: ip.map(str::to_string),
        reason: reason.map(str::to_string),
    }
}

fn send(state: &mut BlocklistState, asked: Option<&WebhookAction>) -> Result<Json, Reply> {
    webhook(state, None, &Headers::new(), b"", asked, &no_proxies()).0
}

#[test]
fn configured_webhook_secret_rejects_unsigned_requests() {
    let mut state = BlocklistState::new();
    let body = br#"{"action":"block_ip","ip":"198.51.100.11"}"#;
    let asked = action("block_ip", Some("198.51.100.11"), None);
    let (result, recorded) = webhook(
        &mut state,
        Some("test-webhook-secret"),
        &Headers::new(),
        body,
        Some(&asked),
        &no_proxies(),
    );
    assert_eq!(result.unwrap_err().status, 401);
    assert!(recorded.is_none());
    assert!(!state.knows("198.51.100.11"));

    let mut mac = hmac::Hmac::<sha2::Sha256>::new_from_slice(b"test-webhook-secret").unwrap();
    mac.update(body);
    let signature = hex::encode(mac.finalize().into_bytes());
    let mut headers = Headers::new();
    headers.push("x-signature", Some(&signature));
    let (accepted, event) = webhook(
        &mut state,
        Some("test-webhook-secret"),
        &headers,
        body,
        Some(&asked),
        &no_proxies(),
    );
    assert!(accepted.is_ok());
    assert_eq!(event.expect("an event").event_type, "webhook_block_ip");
    assert!(state.knows("198.51.100.11"));
}

#[test]
fn malformed_and_incomplete_payloads_fail_closed() {
    let mut state = BlocklistState::new();
    let malformed = send(&mut state, None);
    assert_eq!(malformed.unwrap_err().status, 400);

    let missing_ip = send(&mut state, Some(&action("block_ip", None, None)));
    assert_eq!(missing_ip.unwrap_err().status, 400);
    let unknown = send(&mut state, Some(&action("explode", Some("198.51.100.11"), None)));
    assert_eq!(unknown.unwrap_err().status, 400);
}

#[test]
fn block_and_allow_actions_change_blocklist_state() {
    let mut state = BlocklistState::new();
    let ip = "198.51.100.12";
    send(&mut state, Some(&action("block_ip", Some(ip), None)))
        .expect("block action should succeed");
    assert!(state.contains(ip, None));

    send(&mut state, Some(&action("allow_ip", Some(ip), None)))
        .expect("allow action should succeed");
    assert!(!state.contains(ip, None));
}

#[test]
fn invalid_ip_is_never_added_to_blocklist() {
    let mut state = BlocklistState::new();
    let result = send(&mut state, Some(&action("block_ip", Some("not-an-ip"), None)));

    assert_eq!(result.unwrap_err().status, 400);
    assert!(state.blocked(None).is_empty());
}

#[test]
fn other_stores_take_over_what_an_action_asks_for() {
    let ip = Some("192.0.2.1");
    assert!(matches!(
        change_of(&action("block_ip", ip, None)), Some(ListChange::Block(ip)) if ip == "192.0.2.1"
    ));
    assert!(matches!(change_of(&action("allow_ip", ip, None)), Some(ListChange::Allow(_))));
    assert!(matches!(
        change_of(&action("flag_ip", ip, Some("seen"))), Some(ListChange::Flag(_, r)) if r == "seen"
    ));
    assert!(matches!(
        change_of(&action("flag_ip", ip, None)), Some(ListChange::Flag(_, r)) if r == "flagged"
    ));
    assert!(matches!(change_of(&action("unflag_ip", ip, None)), Some(ListChange::Unflag(_))));
    assert!(change_of(&action("explode", ip, None)).is_none());
    assert!(change_of(&action("block_ip", None, None)).is_none());
}

#[test]
fn traces_are_exported_to_web_endpoints_only() {
    assert!(matches!(export_endpoint(None), Ok(None)));
    assert!(matches!(export_endpoint(Some("  ")), Ok(None)));
    assert!(matches!(
        export_endpoint(Some("http://localhost:4317")),
        Ok(Some(endpoint)) if endpoint == "http://localhost:4317"
    ));
    assert!(check_export_endpoint("https://collector.test").is_ok());
    for endpoint in ["ftp://collector.test", "/traces", "collector.test:4317"] {
        assert_eq!(
            check_export_endpoint(endpoint).unwrap_err().message(),
            "OTEL_EXPORTER_OTLP_ENDPOINT must be an http(s) OTLP/gRPC endpoint",
            "{endpoint}"
        );
    }
    assert_eq!(
        check_export_endpoint("http://a b").unwrap_err().message(),
        "OTEL_EXPORTER_OTLP_ENDPOINT is not a valid URI"
    );
    let schemeless = UriParts { scheme: None, has_authority: true };
    assert!(matches!(judge_endpoint(Ok(schemeless)), Some(EndpointFault::NotHttp)));
    let bare = UriParts { scheme: Some("https".into()), has_authority: false };
    assert!(matches!(judge_endpoint(Ok(bare)), Some(EndpointFault::NotHttp)));
}

#[test]
fn flags_are_set_and_taken_away() {
    let mut state = BlocklistState::new();
    send(&mut state, Some(&action("flag_ip", Some("192.0.2.1"), None))).expect("a flag");
    assert_eq!(state.stats(None).flagged_count, 1);
    send(&mut state, Some(&action("unflag_ip", Some("192.0.2.1"), None))).expect("no flag");
    assert_eq!(state.stats(None).flagged_count, 0);
}

#[test]
fn reports_flag_and_lists_show() {
    let mut state = BlocklistState::new();
    let (answer, recorded) = report(
        &mut state,
        &IpAction { ip: Some("192.0.2.1".into()), reason: None },
    );
    same(&answer, r#"{"status":"accepted","ip":"192.0.2.1"}"#);
    let event = recorded.expect("an event");
    same(&event.payload, r#"{"ip":"192.0.2.1","reason":"community_report"}"#);
    assert!(!state.knows("192.0.2.1"));
    let (refused, none) = report(&mut state, &IpAction { ip: None, reason: None });
    same(&refused, r#"{"status":"error","message":"ip required"}"#);
    assert!(none.is_none());
    same(&blocked_document(&vec!["a".into(), "b".into()]), r#"{"blocked":["a","b"]}"#);
    assert_eq!(list_auth(false, &vec![]).unwrap_err().status, 401);
    same(&list_auth(true, &vec!["a".into()]).unwrap(), r#"{"blocked":["a"]}"#);
}

#[test]
fn synchronized_lists_count_what_they_took() {
    let mut state = BlocklistState::new();
    let proxies = TrustedProxies { cdn: None, proxies: Some("10.0.0.0/8".into()) };
    let ips: Vec<String> =
        ["198.51.100.1", "10.0.0.1", "junk", "198.51.100.2"].iter().map(|s| s.to_string()).collect();
    assert_eq!(
        sync_blocklist(&mut state, false, &ips, None, &proxies).0.unwrap_err().status,
        401
    );
    let (answer, event) = sync_blocklist(&mut state, true, &ips, None, &proxies);
    same(&answer.unwrap(), r#"{"status":"success","accepted":2,"rejected":2}"#);
    assert_eq!(event.expect("an event").actor, "edge-ops");
    assert_eq!(state.blocked(None), vec!["198.51.100.1", "198.51.100.2"]);
    let again = vec!["203.0.113.1".to_string()];
    assert_eq!(block_all(&mut state, &again, &proxies), 1);
    assert_eq!(state.stats(None).blocked_count, 3);
}

#[test]
fn the_shared_store_answers_first() {
    let mut state = BlocklistState::new();
    assert!(state.contains("192.0.2.9", Some(true)));
    assert!(state.knows("192.0.2.9"));
    let shared = vec!["b".to_string(), "a".to_string()];
    assert_eq!(state.blocked(Some(&shared)), vec!["a", "b"]);
    let counts = BlocklistStats { blocked_count: 7, flagged_count: 8 };
    assert_eq!(state.stats(Some(counts)).blocked_count, 7);
    assert_eq!(flag_key("flag:", "1.2.3.4"), "flag:1.2.3.4");
}

fn captcha() -> CaptchaState {
    CaptchaState::new(b"integration-secret".to_vec(), 300)
}

#[test]
fn issued_token_verifies_exactly_once() {
    let mut state = captcha();
    let token = state.issue();
    assert!(state.verify_once(&token));
    assert!(!state.verify_once(&token));
}

#[test]
fn arbitrary_nonempty_token_is_rejected() {
    assert!(!captcha().verify_once("anything"));
}

#[test]
fn tampered_token_is_rejected_without_consuming_original() {
    let mut state = captcha();
    let token = state.issue();
    let mut tampered = token.clone();
    tampered.push('0');

    assert!(!state.verify_once(&tampered));
    assert!(state.verify_once(&token));
}

#[test]
fn wrong_solution_does_not_issue_token() {
    let mut state = captcha();
    let response = solve(&mut state, Some("robot"));

    same(&response, r#"{"success":false,"token":null}"#);
}

#[test]
fn challenge_tokens_expire() {
    let mut state = captcha();
    let token = state.issue_at(1000, "0123456789abcdef0123456789abcdef");
    let payload = "1300.0123456789abcdef0123456789abcdef";
    assert_eq!(token, format!("{payload}.{}", sign(b"integration-secret", payload)));
    assert!(!captcha().verify_once_at(&token, 1000));
    assert!(!state.verify_once_at(&token, 1301));
    let again = state.issue_at(1000, "fedcba9876543210fedcba9876543210");
    same(&verify(&mut state, Some(&again), 1200), r#"{"success":true}"#);
    same(&verify(&mut state, Some(&again), 1200), r#"{"success":false}"#);
    same(&verify(&mut state, None, 1200), r#"{"success":false}"#);
    let answer = solve_at(&mut state, Some(" HUMAN "), 1000, "00112233445566778899aabbccddeeff");
    assert!(answer.get_text("token").is_some());
    assert!(solved(Some("Human")));
    assert!(!solved(None));
}

#[test]
fn forms_are_told_by_their_type() {
    assert!(is_form_content(Some("application/x-www-form-urlencoded")));
    assert!(is_form_content(Some("Application/X-WWW-Form-Urlencoded ; charset=utf-8")));
    assert!(!is_form_content(Some("application/json")));
    assert!(!is_form_content(None));
}

#[test]
fn challenge_settings_have_defaults() {
    let mut configured = CaptchaState::from_settings(Some("integration-secret"), Some("300"));
    let token = configured.issue_at(1000, "0123456789abcdef0123456789abcdef");
    assert!(configured.verify_once_at(&token, 1299));
}

#[test]
fn providers_get_their_own_shapes() {
    let request = read(r#"{"prompt":"hello"}"#);
    let provider = |kind| ModelProvider::new("http://model".into(), Some("key".into()), kind);
    same(
        &provider(ProviderKind::OpenAiCompatible).normalize_payload(&request, Some("gpt")),
        r#"{"model":"gpt","messages":[{"role":"user","content":"hello"}],"max_tokens":256}"#,
    );
    same(
        &provider(ProviderKind::CohereCompatible).normalize_payload(&request, None),
        r#"{"model":"default","message":"hello","max_tokens":256}"#,
    );
    same(
        &provider(ProviderKind::GeminiCompatible).normalize_payload(&request, None),
        r#"{"contents":[{"parts":[{"text":"hello"}]}]}"#,
    );
    same(
        &provider(ProviderKind::OllamaCompatible).normalize_payload(&request, Some("llama")),
        r#"{"model":"llama","prompt":"hello","stream":false}"#,
    );
    same(
        &provider(ProviderKind::GenericHttp).normalize_payload(&request, None),
        r#"{"prompt":"hello"}"#,
    );
    let given = read(r#"{"model":"m","messages":[1],"max_tokens":9}"#);
    same(
        &provider(ProviderKind::MistralCompatible).normalize_payload(&given, Some("gpt")),
        r#"{"model":"m","messages":[1],"max_tokens":9}"#,
    );
    let headers = provider(ProviderKind::AnthropicCompatible).authorization(None);
    assert_eq!(headers[0], ("x-api-key".to_string(), "key".to_string()));
    assert_eq!(headers[1], ("anthropic-version".to_string(), "2023-06-01".to_string()));
    let bearer = provider(ProviderKind::GenericHttp).authorization(None);
    assert_eq!(bearer, vec![("authorization".to_string(), "Bearer key".to_string())]);
    assert!(provider(ProviderKind::LocalHttp).authorization(None).is_empty());
    same(
        &provider_answer(ProviderKind::OllamaCompatible, false, 502, Json::Null),
        r#"{"status":"error","provider":"ollama-compatible","upstream_status":502,"response":null}"#,
    );
}

#[test]
fn providers_are_named_in_settings() {
    assert_eq!(ProviderKind::from_setting(Some("Anthropic")), ProviderKind::AnthropicCompatible);
    assert_eq!(ProviderKind::from_setting(Some("google")), ProviderKind::GeminiCompatible);
    assert_eq!(ProviderKind::from_setting(None), ProviderKind::GenericHttp);
    assert_eq!(ProviderKind::MistralCompatible.name(), "mistral-compatible");
    assert!(ModelProvider::from_settings(None, None, None).is_none());
    let made = ModelProvider::from_settings(Some("http://m"), None, Some("local")).unwrap();
    assert_eq!(made.kind, ProviderKind::LocalHttp);
}

#[test]
fn url_validation_rejects_private_and_lookalike_hosts() {
    assert!(!valid_url_text("http://127.0.0.1/data", false, ""));
    assert!(!valid_url_text("http://10.0.0.1/data", false, ""));
}

#[test]
fn only_allowed_domains_are_fetched() {
    assert!(valid_url_text("https://example.com/x", true, ""));
    assert!(!valid_url_text("http://example.com/x", true, ""));
    assert!(!valid_url_text("ftp://example.com/x", false, ""));
    assert!(!valid_url_text("http://localhost/x", false, ""));
    assert!(valid_url_text("https://a.example.com/", true, "example.com"));
    assert!(!valid_url_text("https://notexample.com/", true, "example.com"));
    assert!(!valid_url_text("not a url", false, ""));
}

#[test]
fn robots_url_preserves_non_default_port() {
    assert_eq!(
        robots_url("https://example.com:8443/page", "").as_deref(),
        Some("https://example.com:8443/robots.txt")
    );
}

#[test]
fn fetches_are_bounded_and_pinned() {
    let target = fetch_target("https://example.com/rules", true, "").expect("a target");
    assert_eq!((target.host.as_str(), target.port), ("example.com", 443));
    assert_eq!(
        fetch_target("https://192.168.1.1/", true, "").unwrap_err(),
        "URL failed SSRF validation"
    );
    let public = vec![parse_ip("1.1.1.1").unwrap(), parse_ip("8.8.8.8").unwrap()];
    assert_eq!(ip_string(&pin_address(&public).unwrap()), "1.1.1.1");
    let mixed = vec![parse_ip("1.1.1.1").unwrap(), parse_ip("10.0.0.1").unwrap()];
    assert_eq!(pin_address(&mixed).unwrap_err(), "URL resolved to a non-public address");
    assert!(pin_address(&vec![]).is_err());
    assert_eq!(check_answer(true, None, 10).unwrap_err(), "redirects are not followed");
    assert_eq!(
        check_answer(false, Some(11), 10).unwrap_err(),
        "upstream response exceeds EDGE_MAX_FETCH_BYTES"
    );
    assert!(check_answer(false, Some(10), 10).is_ok());
    let mut body = Vec::new();
    assert!(append_chunk(&mut body, b"12345", 8));
    assert!(!append_chunk(&mut body, b"6789", 8));
    assert_eq!(fetched_text(b"text".to_vec()).unwrap(), "text");
    assert!(fetched_text(vec![0xff]).is_err());
}

#[test]
fn edge_operations_are_answered() {
    let refused =
        fetch_answer("https://x/robots.txt", &Err("gone".to_string()), default_robots()).unwrap_err();
    assert_eq!(refused.status, 502);
    assert_eq!(refused.body.get_text("message"), Some("gone"));
    assert_eq!(refused.body.get_text("content"), Some(default_robots()));
    let fetched = fetch_answer("https://x/", &Ok("rules".to_string()), "").unwrap();
    assert_eq!(fetched.get_text("content"), Some("rules"));
    same(&waf_answer(3), r#"{"status":"queued","rule_count":3}"#);
    assert_eq!(record_waf_reload(3).event_type, "waf_rules_reload_requested");
    let paths = vec!["/a".to_string()];
    same(&local_purge_answer(&paths), r#"{"status":"queued","provider":"local","paths":["/a"]}"#);
    same(&purge_request(&paths), r#"{"paths":["/a"]}"#);
    same(&purge_answer(true, 200), r#"{"status":"success","upstream_status":200}"#);
    same(
        &tls_status(None, Some("acme")),
        r#"{"status":"ok","managed":"external","certificate_source":"acme"}"#,
    );
    same(
        &ddos_status(BlocklistStats { blocked_count: 1, flagged_count: 2 }, None),
        r#"{"status":"ok","blocked_count":1,"flagged_count":2,"mode":"threshold"}"#,
    );
    let query = ScoreQuery {
        ip: None,
        method: None,
        path: None,
        user_agent: Some("Mozilla/5.0".into()),
        referer: None,
        accept: Some("text/html".into()),
    };
    let metadata = metadata_from_query(&query);
    assert_eq!(metadata.ip.as_deref(), Some("0.0.0.0"));
    let standing = Standing { at_block: false, at_tarpit: false, at_throttle: false };
    let decision = decide(&metadata, FrequencyFeatures::default(), standing, 0);
    let answer = score_answer(&decision, "0.11");
    assert!(matches!(answer.get("score"), Some(Json::Decimal(s)) if s == "0.11"));
}

#[test]
fn crawler_token_and_hop_headers_are_not_forwardable() {
    assert!(is_hop_by_hop("Connection"));
    assert!(is_hop_by_hop("transfer-encoding"));
    assert!(is_forwardable_request_header("authorization"));
    assert!(!is_forwardable_request_header("x-crawler-token"));
    assert!(!is_forwardable_request_header("host"));
}

fn positive_finite(amount: f64) -> bool {
    amount.is_finite() && amount > 0.0
}

#[test]
fn payment_validation_rejects_non_finite_amounts() {
    assert!(validate_payment("crawler", positive_finite(f64::NAN)).is_err());
    assert!(validate_payment("crawler", positive_finite(f64::INFINITY)).is_err());
}

#[test]
fn payments_need_a_token_and_an_amount() {
    assert!(validate_payment("crawler", positive_finite(0.5)).is_ok());
    assert!(validate_payment("  ", true).is_err());
    let refused = validate_payment("crawler", positive_finite(0.0)).unwrap_err();
    assert_eq!(refused.status, 400);
    assert_eq!(
        refused.body.get_text("message"),
        Some("token and a positive finite amount are required")
    );
}

fn payment() -> Payment {
    Payment {
        token: "tok".into(),
        minor_units: 1250,
        two_decimals: "12.50".into(),
        amount: "12.5".into(),
        negative_amount: "-12.5".into(),
    }
}

#[test]
fn gateways_get_their_own_shapes() {
    let make = |provider: &str, operation: &str| {
        payment_gateway_payload_with(provider, operation, &payment(), None, "the-key")
    };
    same(
        &make("stripe", "charge"),
        r#"{"metadata":{"crawler_token":"tok"},"amount":1250,"currency":"usd","capture_method":"automatic","operation":"charge"}"#,
    );
    same(
        &make("paypal", "refund"),
        r#"{"intent":"REFUND","purchase_units":[{"reference_id":"tok","amount":{"currency_code":"USD","value":"12.50"}}]}"#,
    );
    same(&make("braintree", "charge"), r#"{"customer_id":"tok","amount":"12.50","operation":"charge"}"#);
    same(
        &make("square", "charge"),
        r#"{"idempotency_key":"the-key","source_id":"tok","amount_money":{"amount":1250,"currency":"USD"},"operation":"charge"}"#,
    );
    same(
        &make("adyen", "charge"),
        r#"{"reference":"tok","amount":{"currency":"USD","value":1250},"operation":"charge"}"#,
    );
    same(
        &make("authorize.net", "refund"),
        r#"{"createTransactionRequest":{"transactionRequest":{"transactionType":"refundTransaction","amount":"12.50","refTransId":"tok"}}}"#,
    );
    same(
        &make("credit-ledger", "refund"),
        r#"{"account":"tok","credit_delta":-12.5,"source":"pay-per-crawl"}"#,
    );
    same(&make("other", "charge"), r#"{"token":"tok","amount":12.5,"provider":"other"}"#);
    let square = payment_gateway_payload("square", "charge", &payment(), Some("eur"));
    assert_eq!(square.get_text("idempotency_key").map(str::len), Some(36));
}

#[test]
fn crawlers_are_registered_and_credited() {
    same(
        &registration_answer("t", "n", "p"),
        r#"{"status":"success","crawler":{"name":"n","token":"t","purpose":"p","credit":0.0}}"#,
    );
    assert_eq!(crawler_token(Some("mine")), "mine");
    assert_ne!(crawler_token(None), crawler_token(None));
    assert_eq!(crawler_gateway_payload("t", "n", "p").get_text("token"), Some("t"));
    same(
        &credit_answer(&CreditResult::Database("1.5".into())).unwrap(),
        r#"{"status":"success","credit":1.5,"store":"postgres"}"#,
    );
    same(
        &credit_answer(&CreditResult::Memory("2.0".into())).unwrap(),
        r#"{"status":"success","credit":2.0}"#,
    );
    assert_eq!(credit_answer(&CreditResult::Unknown).unwrap_err().status, 404);
    assert_eq!(credit_answer(&CreditResult::Unavailable).unwrap_err().status, 503);
    assert!(gateway_error(GatewayResult::Accepted, "charge", "").is_none());
    let rejected = gateway_error(GatewayResult::Rejected(402), "charge", "").unwrap();
    assert_eq!(rejected.status, 502);
    assert_eq!(rejected.body.get_text("message"), Some("payment gateway rejected request"));
    let down = gateway_error(GatewayResult::Unavailable, "refund", "refused").unwrap();
    assert_eq!(down.body.get_text("detail"), Some("refused"));
}

#[test]
fn crawled_pages_are_checked_before_they_are_charged() {
    assert_eq!(preflight(None, true, "http://b").unwrap().status, 400);
    assert_eq!(preflight(Some("t"), false, "http://b").unwrap().status, 503);
    assert_eq!(
        preflight(Some("t"), true, "nonsense").unwrap().body.get_text("message"),
        Some("REAL_BACKEND_HOST must be a valid http(s) URL")
    );
    assert_eq!(
        preflight(Some("t"), true, "ftp://b").unwrap().body.get_text("message"),
        Some("REAL_BACKEND_HOST must use http or https")
    );
    assert!(preflight(Some("t"), true, "https://b").is_none());
    assert_eq!(page_url("http://b//", "/a/b", Some("c=d")), "http://b/a/b?c=d");
    assert_eq!(page_url("http://b", "a", None), "http://b/a");
    assert!(is_returned_header("content-type"));
    assert!(!is_returned_header("Content-Length"));
    assert!(!is_returned_header("upgrade"));
}

#[test]
fn failed_pages_give_the_charge_back() {
    let run = |events: &[ProxyEvent]| {
        events.iter().fold(ProxyState::Charging, |state, event| proxy(state, *event, 10))
    };
    assert_eq!(
        run(&[
            ProxyEvent::Charged,
            ProxyEvent::BodyRead,
            ProxyEvent::Answered(None),
            ProxyEvent::Chunk(4),
            ProxyEvent::Chunk(6),
            ProxyEvent::AnswerEnded,
        ]),
        ProxyState::Served
    );
    assert_eq!(
        run(&[ProxyEvent::ChargeRefused]),
        ProxyState::Refused(ProxyFailure::NoCredit)
    );
    assert_eq!(
        run(&[ProxyEvent::LedgerFailed]),
        ProxyState::Refused(ProxyFailure::LedgerUnavailable)
    );
    for (events, failure, status) in [
        (vec![ProxyEvent::Charged, ProxyEvent::BodyRefused], ProxyFailure::BodyTooLarge, 413),
        (
            vec![ProxyEvent::Charged, ProxyEvent::BodyRead, ProxyEvent::SendFailed],
            ProxyFailure::BackendUnreachable,
            502,
        ),
        (
            vec![ProxyEvent::Charged, ProxyEvent::BodyRead, ProxyEvent::Answered(Some(11))],
            ProxyFailure::AnswerTooLarge,
            502,
        ),
        (
            vec![
                ProxyEvent::Charged,
                ProxyEvent::BodyRead,
                ProxyEvent::Answered(None),
                ProxyEvent::Chunk(11),
            ],
            ProxyFailure::AnswerTooLarge,
            502,
        ),
        (
            vec![
                ProxyEvent::Charged,
                ProxyEvent::BodyRead,
                ProxyEvent::Answered(Some(3)),
                ProxyEvent::AnswerFailed,
            ],
            ProxyFailure::AnswerBroken,
            502,
        ),
    ] {
        let restoring = run(&events);
        assert_eq!(restoring, ProxyState::Restoring(failure));
        assert_eq!(proxy(restoring, ProxyEvent::Restored, 10), ProxyState::Refused(failure));
        assert_eq!(refusal_of(failure).status, status);
    }
    assert_eq!(refusal_of(ProxyFailure::NoCredit).status, 402);
}

#[test]
fn the_audit_trail_is_kept_and_shown() {
    assert_eq!(AuditStore::from_setting(Some("jsonl"), false), Ok(AuditStore::Jsonl));
    assert_eq!(
        AuditStore::from_setting(Some("postgres"), false),
        Err(AuditError::DatabaseRequired)
    );
    assert_eq!(AuditStore::from_setting(Some("tape"), true), Err(AuditError::UnknownBackend));
    assert_eq!(AuditStore::Jsonl.backend_name(), "jsonl");
    assert!(!AuditError::UnknownBackend.message().is_empty());
    assert_eq!(event_limit(0), 1);
    assert_eq!(event_limit(20_000), 10_000);
    assert_eq!(jsonl_records("a\r\n\n b\nc\n"), vec!["a", " b", "c"]);
    assert_eq!(jsonl_records("a\r\n\n b\nc\nd\n"), vec!["a", " b", "c", "d"]);
    assert_eq!(jsonl_records("a\r\nb\r"), vec!["a", "b\r"]);
    assert_eq!(jsonl_records("a\n\r"), vec!["a"]);
    assert_eq!(newest_events(&vec![5, 9, 7], 2), vec![1, 2]);
    let recorded = event("test_event", "test_actor", read(r#"{"outcome":"recorded"}"#));
    assert_eq!(recorded.payload.get_text("outcome"), Some("recorded"));
}

#[test]
fn settings_are_read_from_text() {
    assert_eq!(env_string(None, "d"), "d");
    assert_eq!(env_u64(Some("12"), 5), 12);
    assert_eq!(env_u64(Some("-1"), 5), 5);
    assert_eq!(env_u16(Some("70000"), 8080), 8080);
    assert_eq!(env_u64_within(Some("1"), 300, 30, 86_400), 30);
    assert_eq!(env_i32(Some("-7"), 300, 60, 900), 60);
    assert_eq!(env_i32(Some("junk"), 300, 60, 900), 300);
    assert!(env_bool(Some("TRUE"), false));
    assert!(!env_bool(Some("yes"), true));
    assert_eq!(env_list(Some(" a, ,b ")), vec!["a", "b"]);
    assert_eq!(env_solid(Some("  ")), None);
    assert_eq!(tenant_key(Some("t"), "base"), "tenant:t:base");
    assert_eq!(env_prefix("rag-trainer"), "RAG_TRAINER");
    assert_eq!(port_variable("rag-trainer"), "RAG_TRAINER_PORT");
    assert_eq!(secret_or_variable(None, Some("v")).as_deref(), Some("v"));
    assert!(store_enabled(Some("true")));
    let config = ServiceConfig::from_settings("svc", 8001, Some("9000"), None);
    assert_eq!(config.port, 9000);
    let (address, port) = config.bind_addr();
    assert_eq!((ip_string(&address), port), ("0.0.0.0".to_string(), 9000));
    assert_eq!(message("ok", "words").message, "words");
    assert_eq!(health("svc", "now").status, "ok");
    let text = metrics_text("escalation_engine", &vec![("requests_total".to_string(), 3)]);
    assert!(text.contains("requests_total"));
    assert!(text.contains('3'));
    assert!(observability_section("svc", "x").get("service").is_some());
}
