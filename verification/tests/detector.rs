//! Detection, the trained model, escalation and the frequency of requests.
use scraping_defense::blocklist::BlocklistState;
use scraping_defense::detection::{
    browser_fingerprint, decide, decide_with_model, extract_features, extract_features_at, header,
    hundredths_string, is_disallowed_path, score, score_terms, Decision, FrequencyFeatures,
    RequestMetadata, Standing,
};
use scraping_defense::escalation::{
    carry_out, choose_detector, client_of, escalate, record_reload, reload_model, reload_plugins,
    replace_detector, retain_attested_fingerprint, StartChoice,
};
use scraping_defense::frequency::{
    features_from_store, frequency_key, next_step, store_ttl, InMemoryFrequency, StoreStep,
};
use scraping_defense::json::Json;
use scraping_defense::model::{model_feature_names, model_feature_vector, TrainedLinearModel};
use scraping_defense::origin::TrustedProxies;
use scraping_defense::tls::{create_tls_fingerprint_attestation, TlsFingerprint};

fn no_proxies() -> TrustedProxies {
    TrustedProxies { cdn: None, proxies: None }
}

fn logistic(weights: &[f64], bias: f64, features: &[(u64, u64)]) -> f64 {
    let linear = weights.iter().zip(features).fold(bias, |sum, (weight, (top, bottom))| {
        sum + weight * (*top as f64 / *bottom as f64)
    });
    1.0 / (1.0 + (-linear.clamp(-40.0, 40.0)).exp())
}

/// Where the score stands, as floating-point numbers measure it.
fn standing(metadata: &RequestMetadata, freq: FrequencyFeatures) -> Standing {
    let features = extract_features_at(metadata, freq, 0);
    let mut score = 0.0;
    for term in score_terms(&features) {
        score += f64::from(term) / 100.0;
    }
    let score = score.clamp(0.0, 1.0);
    Standing { at_block: score >= 0.92, at_tarpit: score >= 0.82, at_throttle: score >= 0.7 }
}

fn decided(metadata: &RequestMetadata, freq: FrequencyFeatures) -> Decision {
    decide(metadata, freq, standing(metadata, freq), 0)
}

#[test]
fn a_score_that_just_misses_a_threshold_stays_below_it() {
    let metadata = RequestMetadata {
        path: Some("/wp-admin".into()),
        user_agent: Some("python-requests/2".into()),
        fingerprint_reuse_count: Some(6),
        ..Default::default()
    };
    let freq = FrequencyFeatures { count: 9, time_since: Some(100_000_000) };
    let decision = decided(&metadata, freq);
    assert_eq!(score(&decision.features), 92);
    assert_eq!(decision.reason, "Heuristic score 0.92");
    assert_eq!(decision.action, "tarpit");
}

#[test]
fn known_bad_ua_scores_as_bot() {
    let metadata = RequestMetadata {
        ip: Some("10.0.0.1".into()),
        path: Some("/wp-admin".into()),
        user_agent: Some("python-requests/2".into()),
        ..Default::default()
    };
    let freq = FrequencyFeatures { count: 20, time_since: Some(100_000_000) };
    let decision = decided(&metadata, freq);
    assert!(decision.is_bot);
    assert!(score(&decision.features) > 70);
}

#[test]
fn claimed_googlebot_is_not_trusted_without_verification() {
    let unverified = extract_features(
        &RequestMetadata {
            user_agent: Some("Googlebot/2.1".into()),
            verified_bot: Some(false),
            ..Default::default()
        },
        FrequencyFeatures::default(),
    );
    let verified = extract_features(
        &RequestMetadata {
            user_agent: Some("Googlebot/2.1".into()),
            verified_bot: Some(true),
            ..Default::default()
        },
        FrequencyFeatures::default(),
    );

    assert_eq!(unverified.ua_is_known_benign_crawler, 0);
    assert_eq!(verified.ua_is_known_benign_crawler, 1);
}

#[test]
fn disallowed_path_matching_respects_segment_boundaries() {
    assert!(is_disallowed_path("/admin"));
    assert!(is_disallowed_path("/admin/users"));
    assert!(!is_disallowed_path("/administrator"));
}

#[test]
fn tls_fingerprints_are_validated_and_contribute_to_tracking_identity() {
    let metadata = RequestMetadata {
        user_agent: Some("Mozilla/5.0".into()),
        tls_ja3: Some("72A589DA586844D7F0818CE684948EEA".into()),
        tls_ja4: Some("T13D1516H2_8DAAF6152771_E5627EFA2AB1".into()),
        tls_fingerprint_source: Some("envoy".into()),
        ..Default::default()
    };
    let decision = decided(&metadata, FrequencyFeatures::default());

    assert_eq!(decision.tls_ja3.as_deref(), Some("72a589da586844d7f0818ce684948eea"));
    assert_eq!(decision.tls_ja4.as_deref(), Some("t13d1516h2_8daaf6152771_e5627efa2ab1"));
    assert_eq!(decision.tls_fingerprint_source.as_deref(), Some("envoy"));

    let mut without_tls = metadata;
    without_tls.tls_ja3 = None;
    without_tls.tls_ja4 = None;
    assert_ne!(browser_fingerprint(&without_tls), decision.fingerprint);
}

#[test]
fn malformed_tls_fingerprints_are_discarded() {
    let decision = decided(
        &RequestMetadata {
            tls_ja3: Some("not-a-ja3".into()),
            tls_ja4: Some("not-a-ja4".into()),
            tls_fingerprint_source: Some("untrusted".into()),
            ..Default::default()
        },
        FrequencyFeatures::default(),
    );
    assert!(decision.tls_ja3.is_none());
    assert!(decision.tls_ja4.is_none());
    assert!(decision.tls_fingerprint_source.is_none());
}

#[test]
fn trained_model_can_override_the_fixed_heuristic_score() {
    let metadata = RequestMetadata {
        path: Some("/".into()),
        user_agent: Some("Mozilla/5.0".into()),
        ..Default::default()
    };
    let none = FrequencyFeatures::default();
    let features = extract_features(&metadata, none);
    let weights = vec![0.0; model_feature_names().len()];
    let predicted = logistic(&weights, 5.0, &model_feature_vector(&features));
    assert!(predicted > 0.99);
    let standing = Standing {
        at_block: predicted >= 0.92,
        at_tarpit: predicted >= 0.82,
        at_throttle: predicted >= 0.7,
    };
    let text = format!("{predicted:.2}");
    let decision = decide_with_model(&metadata, none, 0, true, &text, standing);

    assert_eq!(decision.action, "block_ip");
    assert!(decision.reason.starts_with("Trained logistic-regression model"));
}

#[test]
fn a_plain_request_has_a_low_score() {
    let metadata = RequestMetadata {
        ip: Some("198.51.100.7".into()),
        path: Some("/products".into()),
        user_agent: Some("Mozilla/5.0".into()),
        referer: Some("https://example.test/".into()),
        ..Default::default()
    };
    let features = extract_features_at(&metadata, FrequencyFeatures::default(), 0);
    assert_eq!(score_terms(&features).iter().sum::<i32>(), 5);
    assert_eq!(score(&features), 5);
    assert_eq!(hundredths_string(5), "0.05");
    assert_eq!(hundredths_string(100), "1.00");
    let decision = decided(&metadata, FrequencyFeatures::default());
    assert!(!decision.is_bot);
}

#[test]
fn the_score_is_the_sum_of_its_reasons() {
    let metadata = RequestMetadata {
        path: Some("/wp-admin".into()),
        user_agent: Some("Scrapy/2".into()),
        fingerprint_reuse_count: Some(6),
        ..Default::default()
    };
    let freq = FrequencyFeatures { count: 30, time_since: Some(0) };
    let features = extract_features_at(&metadata, freq, 0);
    let terms = score_terms(&features);
    assert_eq!(terms[0], 5);
    assert_eq!(terms[1], 30);
    assert_eq!(terms[5], 6);
    assert_eq!(terms[6], 18);
    assert_eq!(terms[7], 10);
    assert_eq!(terms[8], 10);
    let sum: i32 = terms.iter().sum();
    assert_eq!(score(&features), sum.clamp(0, 100) as u32);
}

#[test]
fn the_hour_and_the_weekday_are_those_of_the_request() {
    let metadata = RequestMetadata { timestamp: Some(1_700_000_000), ..Default::default() };
    let features = extract_features_at(&metadata, FrequencyFeatures::default(), 0);
    assert_eq!(features.hour_of_day, 22);
    assert_eq!(features.day_of_week, 1);
}

#[test]
fn headers_are_found_whatever_their_case() {
    let headers = vec![
        ("Accept".to_string(), "Text/HTML".to_string()),
        ("accept".to_string(), "second".to_string()),
    ];
    assert_eq!(header(&headers, "ACCEPT"), "text/html");
    assert_eq!(header(&headers, "missing"), "");
}

#[test]
fn artifacts_have_one_shape() {
    let good = || TrainedLinearModel {
        schema_version: 1,
        algorithm: "logistic_regression".into(),
        feature_names: model_feature_names(),
        weight_count: 10,
        all_finite: true,
    };
    assert!(good().validate().is_ok());
    assert!(TrainedLinearModel { schema_version: 2, ..good() }.validate().is_err());
    assert!(TrainedLinearModel { algorithm: "tree".into(), ..good() }.validate().is_err());
    assert!(TrainedLinearModel { feature_names: vec![], ..good() }.validate().is_err());
    assert!(TrainedLinearModel { weight_count: 9, ..good() }.validate().is_err());
    let message = TrainedLinearModel { all_finite: false, ..good() }.validate().unwrap_err();
    assert_eq!(message, "unsupported or malformed detection model artifact");
}

#[test]
fn features_are_weighed_as_fractions() {
    let metadata = RequestMetadata {
        user_agent: Some("curl/8".into()),
        fingerprint_reuse_count: Some(400),
        ..Default::default()
    };
    let freq = FrequencyFeatures { count: 250, time_since: Some(249_999_999) };
    let vector = model_feature_vector(&extract_features_at(&metadata, freq, 0));
    assert_eq!(vector.len(), 10);
    assert_eq!(vector[7], (100, 100));
    assert_eq!(vector[8], (1, 1));
    assert_eq!(vector[9], (10, 10));
}

#[test]
fn no_configured_path_means_heuristic_detection() {
    assert_eq!(choose_detector(false, None), StartChoice::Heuristics);
}

#[test]
fn missing_artifact_at_startup_falls_back_to_heuristic_detection() {
    assert_eq!(choose_detector(true, Some(false)), StartChoice::Heuristics);
}

#[test]
fn existing_malformed_artifact_still_fails_startup() {
    assert_eq!(choose_detector(true, Some(true)), StartChoice::Artifact);
    let malformed = TrainedLinearModel {
        schema_version: 0,
        algorithm: String::new(),
        feature_names: vec![],
        weight_count: 0,
        all_finite: true,
    };
    assert!(malformed.validate().is_err());
}

#[test]
fn unreadable_artifact_directory_fails_startup_instead_of_falling_back() {
    assert_eq!(choose_detector(true, None), StartChoice::Failure);
}

#[test]
fn model_reload_swaps_in_a_persisted_artifact() {
    assert_eq!(replace_detector(None, Some(7)), (Some(7), true));
    let answer = reload_model(true, Some("/models/m.json"), true).expect("a reload");
    assert_eq!(answer.get_text("detector"), Some("trained"));
    assert_eq!(answer.get_text("model_path"), Some("/models/m.json"));
}

#[test]
fn unreadable_or_invalid_artifacts_do_not_replace_the_detector() {
    assert_eq!(replace_detector(Some(1), None), (Some(1), false));
}

#[test]
fn reload_still_errors_when_artifact_is_missing() {
    let refused = reload_model(true, Some("definitely-does-not-exist.json"), false).unwrap_err();
    assert_eq!(refused.status, 503);
    assert_eq!(
        refused.body.get_text("message"),
        Some("failed to load the model artifact; the previous detector remains active")
    );
    assert_eq!(reload_model(true, None, false).unwrap_err().status, 400);
    assert_eq!(reload_model(false, Some("m.json"), true).unwrap_err().status, 401);
    assert_eq!(reload_plugins(false).unwrap_err().status, 401);
    assert!(reload_plugins(true).is_ok());
    assert_eq!(record_reload("m.json").event_type, "admin_reload_model");
}

#[test]
fn an_escalated_bot_is_blocked_answered_and_recorded() {
    let mut state = BlocklistState::new();
    let metadata = RequestMetadata {
        ip: Some("198.51.100.9".into()),
        path: Some("/wp-admin".into()),
        user_agent: Some("python-requests/2".into()),
        ..Default::default()
    };
    let freq = FrequencyFeatures { count: 7, time_since: None };
    let standing = Standing { at_block: true, at_tarpit: true, at_throttle: true };
    let bare = browser_fingerprint(&metadata);
    let claimed = RequestMetadata {
        tls_ja3: Some("72a589da586844d7f0818ce684948eea".into()),
        tls_fingerprint_source: Some("envoy".into()),
        ..metadata
    };
    let (answer, event, is_bot) = escalate(
        &mut state, claimed, None, &["key"], 60, 0, freq, false, "0.95", "0.95", "-1.0",
        standing, &no_proxies(),
    );
    assert!(is_bot);
    assert_eq!(answer.get_text("fingerprint"), Some(bare.as_str()));
    assert!(state.knows("198.51.100.9"));
    assert_eq!(answer.get_text("action"), Some("block_ip"));
    assert!(matches!(answer.get("score"), Some(Json::Decimal(s)) if s == "0.95"));
    assert_eq!(event.event_type, "escalation_decision");
    assert_eq!(event.actor, "198.51.100.9");
    assert_eq!(event.payload.get_text("action"), Some("block_ip"));
    let features = answer.get("features").expect("features");
    assert_eq!(features.get_text("http_method"), Some("UNKNOWN"));
    assert_eq!(features.get("request_frequency").and_then(|n| n.as_i64()), Some(7));
    assert_eq!(features.get("path_is_wp").and_then(|n| n.as_i64()), Some(1));
}

#[test]
fn blocks_of_infrastructure_are_suppressed() {
    let mut state = BlocklistState::new();
    let proxies = TrustedProxies { cdn: None, proxies: Some("10.0.0.0/8".into()) };
    let metadata = RequestMetadata { ip: Some("10.0.0.2".into()), ..Default::default() };
    assert_eq!(client_of(&metadata), "10.0.0.2");
    assert_eq!(client_of(&RequestMetadata::default()), "unknown");
    let standing = Standing { at_block: true, at_tarpit: true, at_throttle: true };
    let none = FrequencyFeatures::default();
    let decided = decide_with_model(&metadata, none, 0, false, "1.00", standing);
    let settled = carry_out(&mut state, decided, "10.0.0.2", &proxies);
    assert_eq!(settled.action, "observe");
    assert!(settled.reason.ends_with(
        "; block suppressed because the address is invalid or trusted infrastructure"
    ));
    assert!(!state.knows("10.0.0.2"));
}

#[test]
fn unproved_fingerprints_are_dropped() {
    let key = "0123456789abcdef0123456789abcdef";
    let ja3 = "72a589da586844d7f0818ce684948eea";
    let make = || RequestMetadata {
        ip: Some("198.51.100.7".into()),
        method: Some("GET".into()),
        path: Some("/products".into()),
        tls_ja3: Some(ja3.into()),
        tls_fingerprint_source: Some("envoy".into()),
        ..Default::default()
    };
    let made = TlsFingerprint { ja3: Some(ja3.into()), ja4: None, source: "envoy".into() };
    let token =
        create_tls_fingerprint_attestation(key, 1000, "198.51.100.7", "GET", "/products", &made)
            .expect("a token");
    let kept = retain_attested_fingerprint(make(), Some(&token), &[key], 60, 1010);
    assert_eq!(kept.tls_ja3.as_deref(), Some(ja3));
    let late = retain_attested_fingerprint(make(), Some(&token), &[key], 60, 2000);
    assert!(late.tls_ja3.is_none());
    let unsigned = retain_attested_fingerprint(make(), None, &[key], 60, 1010);
    assert!(unsigned.tls_ja3.is_none());
    assert!(unsigned.tls_fingerprint_source.is_none());
}

#[test]
fn requests_are_counted_within_the_window() {
    let mut memory = InMemoryFrequency::new();
    let second: u64 = 1_000_000_000;
    let first = memory.record("a", 60 * second, 100 * second);
    assert_eq!(first.count, 0);
    assert!(first.time_since.is_none());
    let next = memory.record("a", 60 * second, 101 * second);
    assert_eq!(next.count, 1);
    assert_eq!(next.time_since, Some(1_000_000_000));
    let other = memory.record("b", 60 * second, 101 * second);
    assert_eq!(other.count, 0);
    let later = memory.record("a", 60 * second, 161 * second + 1);
    assert_eq!(later.count, 0);
}

#[test]
fn the_store_is_asked_in_order_and_replaced_by_memory() {
    let mut step = StoreStep::Connect;
    let mut seen = Vec::new();
    while step != StoreStep::Answered && step != StoreStep::Fallback {
        seen.push(step);
        step = next_step(step, true);
    }
    assert_eq!(step, StoreStep::Answered);
    assert_eq!(seen.len(), 6);
    assert_eq!(next_step(StoreStep::Connect, false), StoreStep::Fallback);
    assert_eq!(next_step(StoreStep::Trim, false), StoreStep::Fallback);
    assert_eq!(features_from_store(Some(3), Some(250)).map(|f| f.count), Some(2));
    assert!(features_from_store(None, Some(250)).is_none());
    assert_eq!(frequency_key("freq:", "1.2.3.4"), "freq:1.2.3.4");
    assert!(store_ttl(60) >= 60);
}
