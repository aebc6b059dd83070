//! The escalation engine: what counts of a request's TLS fingerprint, what a
//! decision does to the blocklist, and when the detector is replaced.
use vstd::prelude::*;
use crate::audit;
use crate::audit::{EventView, SecurityEvent};
use crate::blocklist::BlocklistState;
use crate::cloud_proxy;
use crate::detection;
use crate::detection::{Decision, DecisionView, ExtractedFeatures, FeaturesView, FrequencyFeatures};
use crate::detection::{MetadataView, RequestMetadata, Standing};
use crate::ip::IpView;
use crate::json;
use crate::json::{Json, JsonObject, JsonView};
use crate::origin;
use crate::origin::{ProxiesView, TrustedProxies};
use crate::reply;
use crate::reply::{Reply, ReplyView};
use crate::settings;
use crate::text;
use crate::tls;
use crate::tls::{FingerprintView, RequestView, TlsAttestationContext, TlsFingerprint};

verus! {

/// The request that an attestation would have to bind.
pub open spec fn claimed_request(request: MetadataView) -> RequestView {
    RequestView {
        client_ip: tls::or_empty(request.ip),
        method: settings::string_setting(request.method, "GET"@),
        path: tls::or_empty(request.path),
        fingerprint: FingerprintView {
            ja3: request.tls_ja3,
            ja4: request.tls_ja4,
            source: tls::or_empty(request.tls_fingerprint_source),
        },
    }
}

/// The request without a TLS fingerprint.
pub open spec fn without_fingerprint(request: MetadataView) -> MetadataView {
    MetadataView { tls_ja3: None, tls_ja4: None, tls_fingerprint_source: None, ..request }
}

/// The request as far as it is proved: its TLS fingerprint counts only with a
/// recent attestation for this very client, method and path.
pub open spec fn proved_request(
    request: MetadataView,
    token: Option<Seq<char>>,
    keys: Seq<Seq<char>>,
    max_age_seconds: int,
    now: int,
) -> MetadataView {
    if tls::attests(token, keys, max_age_seconds, now, claimed_request(request)) {
        request
    } else {
        without_fingerprint(request)
    }
}

/// Drops the TLS fingerprint of a request unless it is attested.
pub fn retain_attested_fingerprint(
    metadata: RequestMetadata,
    attestation: Option<&str>,
    keys: &[&str],
    max_age_seconds: u64,
    now: i64,
) -> (r: RequestMetadata)
    ensures
        r@ == proved_request(
            metadata@,
            text::opt_str_view(attestation),
            text::str_views(keys@),
            max_age_seconds as int,
            now as int,
        ),
{
    proof {
        reveal_strlit("");
        assert(""@ =~= Seq::<char>::empty());
    }
    let fingerprint = TlsFingerprint {
        ja3: text::owned(text::borrowed(&metadata.tls_ja3)),
        ja4: text::owned(text::borrowed(&metadata.tls_ja4)),
        source: settings::env_string(text::borrowed(&metadata.tls_fingerprint_source), ""),
    };
    let client_ip = settings::env_string(text::borrowed(&metadata.ip), "");
    let method = settings::env_string(text::borrowed(&metadata.method), "GET");
    let path = settings::env_string(text::borrowed(&metadata.path), "");
    let context = TlsAttestationContext {
        now,
        client_ip: client_ip.as_str(),
        method: method.as_str(),
        path: path.as_str(),
        fingerprint: &fingerprint,
    };
    let attested = tls::verify_tls_fingerprint_attestation_with_keys(
        attestation,
        keys,
        max_age_seconds,
        &context,
    );
    if attested {
        metadata
    } else {
        RequestMetadata { tls_ja3: None, tls_ja4: None, tls_fingerprint_source: None, ..metadata }
    }
}

/// What is added to the reason where a block was refused.
pub open spec fn suppressed_note() -> Seq<char> {
    "; block suppressed because the address is invalid or trusted infrastructure"@
}

/// The decision blocks an address that is known.
pub open spec fn wants_block(decision: DecisionView, ip: Seq<char>) -> bool {
    decision.action == "block_ip"@ && ip != "unknown"@
}

/// The decision as it stands after the blocklist was asked to carry it out.
pub open spec fn settled_decision(
    decision: DecisionView,
    ip: Seq<char>,
    proxies: ProxiesView,
) -> DecisionView {
    if wants_block(decision, ip) && !origin::is_blockable(ip, proxies) {
        DecisionView {
            action: "observe"@,
            reason: decision.reason + suppressed_note(),
            ..decision
        }
    } else {
        decision
    }
}

/// The blocked addresses after a decision was carried out.
pub open spec fn blocked_after(
    blocked: Set<Seq<char>>,
    decision: DecisionView,
    ip: Seq<char>,
    proxies: ProxiesView,
) -> Set<Seq<char>> {
    if wants_block(decision, ip) && origin::is_blockable(ip, proxies) {
        blocked.insert(ip)
    } else {
        blocked
    }
}

/// Carries a decision out: blocks the address where the decision says so, or
/// turns the decision into an observation where the address must not be blocked.
pub fn carry_out(
    state: &mut BlocklistState,
    decision: Decision,
    ip: &str,
    proxies: &TrustedProxies,
) -> (r: Decision)
    requires
        old(state).well_formed(),
    ensures
        final(state).well_formed(),
        final(state)@.flagged == old(state)@.flagged,
        final(state)@.blocked == blocked_after(old(state)@.blocked, decision@, ip@, proxies@),
        r@ == settled_decision(decision@, ip@, proxies@),
{
    if text::text_eq(decision.action.as_str(), "block_ip") && !text::text_eq(ip, "unknown") {
        if !state.block(ip, proxies) {
            let mut reason = decision.reason;
            reason.append(
                "; block suppressed because the address is invalid or trusted infrastructure",
            );
            return Decision { action: "observe".to_string(), reason, ..decision };
        }
    }
    decision
}

/// The client of a request; a request without one is of an unknown client.
pub fn client_of(metadata: &RequestMetadata) -> (r: String)
    ensures
        r@ == settings::string_setting(metadata@.ip, "unknown"@),
{
    settings::env_string(text::borrowed(&metadata.ip), "unknown")
}

/// The event that records a decision.
pub open spec fn decision_event(decision: DecisionView, score: Seq<char>, ip: Seq<char>) -> EventView {
    EventView {
        event_type: "escalation_decision"@,
        actor: ip,
        payload: JsonView::Object(
            map![
                "is_bot"@ => JsonView::Bool(decision.is_bot),
                "score"@ => JsonView::Decimal(score),
                "action"@ => JsonView::Text(decision.action),
                "reason"@ => JsonView::Text(decision.reason),
                "fingerprint"@ => JsonView::Text(decision.fingerprint),
            ],
        ),
    }
}

/// The event that records a decision; the score is given as its text.
pub fn record_decision(decision: &Decision, score: &str, ip: &str) -> (r: SecurityEvent)
    ensures
        r@ == decision_event(decision@, score@, ip@),
{
    let mut payload = JsonObject::new();
    payload.put("is_bot", Json::Bool(decision.is_bot));
    payload.put("score", Json::Decimal(score.to_string()));
    payload.put("action", json::text_value(decision.action.as_str()));
    payload.put("reason", json::text_value(decision.reason.as_str()));
    payload.put("fingerprint", json::text_value(decision.fingerprint.as_str()));
    audit::event("escalation_decision", ip, Json::Object(payload))
}

/// The document of the features; the time since the last request is given as text.
pub open spec fn features_document(features: FeaturesView, time_since: Seq<char>) -> JsonView {
    JsonView::Object(
        map![
            "country_code"@ => JsonView::Text(features.country_code),
            "ua_length"@ => JsonView::Int(features.ua_length as int),
            "status_code"@ => JsonView::Int(features.status_code as int),
            "bytes_sent"@ => JsonView::Int(features.bytes_sent as int),
            "http_method"@ => JsonView::Text(features.http_method),
            "path_depth"@ => JsonView::Int(features.path_depth as int),
            "path_length"@ => JsonView::Int(features.path_length as int),
            "path_is_root"@ => JsonView::Int(features.path_is_root as int),
            "path_has_docs"@ => JsonView::Int(features.path_has_docs as int),
            "path_is_wp"@ => JsonView::Int(features.path_is_wp as int),
            "path_disallowed"@ => JsonView::Int(features.path_disallowed as int),
            "ua_is_known_bad"@ => JsonView::Int(features.ua_is_known_bad as int),
            "ua_is_known_benign_crawler"@ => JsonView::Int(
                features.ua_is_known_benign_crawler as int,
            ),
            "ua_is_empty"@ => JsonView::Int(features.ua_is_empty as int),
            "ua_library_is_bot"@ => JsonView::Int(features.ua_library_is_bot as int),
            "referer_is_empty"@ => JsonView::Int(features.referer_is_empty as int),
            "referer_has_domain"@ => JsonView::Int(features.referer_has_domain as int),
            "hour_of_day"@ => JsonView::Int(features.hour_of_day),
            "day_of_week"@ => JsonView::Int(features.day_of_week),
            "request_frequency"@ => JsonView::Int(features.request_frequency as int),
            "time_since_last_sec"@ => JsonView::Decimal(time_since),
            "fingerprint_reuse_count"@ => JsonView::Int(features.fingerprint_reuse_count as int),
        ],
    )
}

/// The document of the features.
pub fn describe_features(features: &ExtractedFeatures, time_since: &str) -> (r: Json)
    ensures
        r@ == features_document(features@, time_since@),
{
    let mut body = JsonObject::new();
    body.put("country_code", json::text_value(features.country_code.as_str()));
    body.put("ua_length", Json::Unsigned(features.ua_length as u64));
    body.put("status_code", Json::Unsigned(features.status_code as u64));
    body.put("bytes_sent", Json::Unsigned(features.bytes_sent));
    body.put("http_method", json::text_value(features.http_method.as_str()));
    body.put("path_depth", Json::Unsigned(features.path_depth as u64));
    body.put("path_length", Json::Unsigned(features.path_length as u64));
    body.put("path_is_root", Json::Unsigned(features.path_is_root as u64));
    body.put("path_has_docs", Json::Unsigned(features.path_has_docs as u64));
    body.put("path_is_wp", Json::Unsigned(features.path_is_wp as u64));
    body.put("path_disallowed", Json::Unsigned(features.path_disallowed as u64));
    body.put("ua_is_known_bad", Json::Unsigned(features.ua_is_known_bad as u64));
    body.put(
        "ua_is_known_benign_crawler",
        Json::Unsigned(features.ua_is_known_benign_crawler as u64),
    );
    body.put("ua_is_empty", Json::Unsigned(features.ua_is_empty as u64));
    body.put("ua_library_is_bot", Json::Unsigned(features.ua_library_is_bot as u64));
    body.put("referer_is_empty", Json::Unsigned(features.referer_is_empty as u64));
    body.put("referer_has_domain", Json::Unsigned(features.referer_has_domain as u64));
    body.put("hour_of_day", Json::Signed(features.hour_of_day as i64));
    body.put("day_of_week", Json::Signed(features.day_of_week as i64));
    body.put("request_frequency", Json::Unsigned(features.request_frequency));
    body.put("time_since_last_sec", Json::Decimal(time_since.to_string()));
    body.put("fingerprint_reuse_count", Json::Unsigned(features.fingerprint_reuse_count));
    Json::Object(body)
}

/// The answer to a request that was decided.
pub open spec fn escalation_answer(
    decision: DecisionView,
    score: Seq<char>,
    time_since: Seq<char>,
) -> JsonView {
    JsonView::Object(
        map![
            "status"@ => JsonView::Text("success"@),
            "is_bot"@ => JsonView::Bool(decision.is_bot),
            "score"@ => JsonView::Decimal(score),
            "action"@ => JsonView::Text(decision.action),
            "reason"@ => JsonView::Text(decision.reason),
            "fingerprint"@ => JsonView::Text(decision.fingerprint),
            "features"@ => features_document(decision.features, time_since),
        ],
    )
}

/// The answer to a request that was decided.
pub fn answer_decision(decision: &Decision, score: &str, time_since: &str) -> (r: Json)
    ensures
        r@ == escalation_answer(decision@, score@, time_since@),
{
    let mut answer = JsonObject::new();
    answer.put("status", json::text_value("success"));
    answer.put("is_bot", Json::Bool(decision.is_bot));
    answer.put("score", Json::Decimal(score.to_string()));
    answer.put("action", json::text_value(decision.action.as_str()));
    answer.put("reason", json::text_value(decision.reason.as_str()));
    answer.put("fingerprint", json::text_value(decision.fingerprint.as_str()));
    answer.put("features", describe_features(&decision.features, time_since));
    Json::Object(answer)
}

/// What an escalated request comes to: the answer, the event to record, and
/// whether a bot was seen. Of the request only what is proved counts. The standing
/// of the score is that of the detector in use; the score and the time since the
/// last request are given as their texts.
pub fn escalate(
    state: &mut BlocklistState,
    metadata: RequestMetadata,
    attestation: Option<&str>,
    keys: &[&str],
    max_age_seconds: u64,
    now: i64,
    freq: FrequencyFeatures,
    trained: bool,
    score: &str,
    rounded_score: &str,
    time_since: &str,
    standing: Standing,
    proxies: &TrustedProxies,
) -> (r: (Json, SecurityEvent, bool))
    requires
        old(state).well_formed(),
    ensures
        final(state).well_formed(),
        final(state)@.flagged == old(state)@.flagged,
        ({
            let proved = proved_request(
                metadata@,
                text::opt_str_view(attestation),
                text::str_views(keys@),
                max_age_seconds as int,
                now as int,
            );
            let ip = settings::string_setting(proved.ip, "unknown"@);
            let decided = detection::decision_of(
                proved,
                detection::features_of(proved, freq, now as int),
                trained,
                rounded_score@,
                standing,
            );
            let settled = settled_decision(decided, ip, proxies@);
            &&& final(state)@.blocked == blocked_after(old(state)@.blocked, decided, ip, proxies@)
            &&& r.0@ == escalation_answer(settled, score@, time_since@)
            &&& r.1@ == decision_event(settled, score@, ip)
            &&& r.2 == decided.is_bot
        }),
{
    let proved = retain_attested_fingerprint(metadata, attestation, keys, max_age_seconds, now);
    let ip = client_of(&proved);
    let decided = detection::decide_with_model(
        &proved,
        freq,
        now,
        trained,
        rounded_score,
        standing,
    );
    let is_bot = decided.is_bot;
    let settled = carry_out(state, decided, ip.as_str(), proxies);
    let event = record_decision(&settled, score, ip.as_str());
    let answer = answer_decision(&settled, score, time_since);
    (answer, event, is_bot)
}

/// Nothing of a TLS fingerprint enters the features, so that they are the same
/// whether it counts or not.
pub proof fn law_features_need_no_fingerprint(
    request: MetadataView,
    freq: FrequencyFeatures,
    now: int,
)
    ensures
        detection::features_of(without_fingerprint(request), freq, now) == detection::features_of(
            request,
            freq,
            now,
        ),
{
}

/// What to start the detector with.
#[derive(Debug, Clone, Copy, PartialEq, Eq, Structural)]
pub enum StartChoice {
    /// Heuristics: no artifact is configured, or none is there yet.
    Heuristics,
    /// The configured artifact, which must load.
    Artifact,
    /// Nothing: it cannot be told whether the artifact is there.
    Failure,
}

/// What to start the detector with, given whether an artifact is configured
/// and whether it was found; none found because of an error is a failure.
pub fn choose_detector(configured: bool, found: Option<bool>) -> (r: StartChoice)
    ensures
        r == (if !configured || found == Some(false) {
            StartChoice::Heuristics
        } else if found == Some(true) {
            StartChoice::Artifact
        } else {
            StartChoice::Failure
        }),
{
    if !configured {
        StartChoice::Heuristics
    } else {
        match found {
            Some(true) => StartChoice::Artifact,
            Some(false) => StartChoice::Heuristics,
            None => StartChoice::Failure,
        }
    }
}

/// The detector in use after an attempt to load another one, and whether it
/// was replaced: a failed attempt leaves the former one active.
pub fn replace_detector<T>(current: Option<T>, loaded: Option<T>) -> (r: (Option<T>, bool))
    ensures
        r.1 == loaded.is_some(),
        r.0 == (if loaded.is_some() {
            loaded
        } else {
            current
        }),
{
    match loaded {
        Some(detector) => (Some(detector), true),
        None => (current, false),
    }
}

/// The answer to a request to reload the detector; `loaded` says whether the
/// configured artifact could be loaded.
pub open spec fn reload_outcome(
    authorized: bool,
    path: Option<Seq<char>>,
    loaded: bool,
) -> Result<JsonView, ReplyView> {
    if !authorized {
        Err(reply::unauthorized_view())
    } else {
        match path {
            None => Err(
                reply::refusal(
                    reply::BAD_REQUEST,
                    "DETECTION_MODEL_PATH is not configured; nothing to reload"@,
                ),
            ),
            Some(name) => if loaded {
                Ok(
                    JsonView::Object(
                        map![
                            "status"@ => JsonView::Text("success"@),
                            "detector"@ => JsonView::Text("trained"@),
                            "model_path"@ => JsonView::Text(name),
                        ],
                    ),
                )
            } else {
                Err(
                    reply::refusal(
                        reply::SERVICE_UNAVAILABLE,
                        "failed to load the model artifact; the previous detector remains active"@,
                    ),
                )
            },
        }
    }
}

/// The answer to a request to reload the detector.
pub fn reload_model(authorized: bool, path: Option<&str>, loaded: bool) -> (r: Result<Json, Reply>)
    ensures
        reply::outcome(r) == reload_outcome(authorized, text::opt_str_view(path), loaded),
{
    if !authorized {
        return Err(reply::unauthorized());
    }
    match path {
        None => Err(
            reply::refuse(
                reply::BAD_REQUEST,
                "DETECTION_MODEL_PATH is not configured; nothing to reload",
            ),
        ),
        Some(name) => if loaded {
            let mut answer = JsonObject::new();
            answer.put("status", json::text_value("success"));
            answer.put("detector", json::text_value("trained"));
            answer.put("model_path", json::text_value(name));
            Ok(Json::Object(answer))
        } else {
            Err(
                reply::refuse(
                    reply::SERVICE_UNAVAILABLE,
                    "failed to load the model artifact; the previous detector remains active",
                ),
            )
        },
    }
}

/// The event that records a reload.
pub fn record_reload(path: &str) -> (r: SecurityEvent)
    ensures
        r@ == (EventView {
            event_type: "admin_reload_model"@,
            actor: "admin"@,
            payload: JsonView::Object(
                map![
                    "service"@ => JsonView::Text("escalation-engine"@),
                    "model_path"@ => JsonView::Text(path@),
                ],
            ),
        }),
{
    let mut payload = JsonObject::new();
    payload.put("service", json::text_value("escalation-engine"));
    payload.put("model_path", json::text_value(path));
    audit::event("admin_reload_model", "admin", Json::Object(payload))
}

/// The answer to a request to reload plugins: there are none to load.
pub open spec fn plugins_outcome(authorized: bool) -> Result<JsonView, ReplyView> {
    if authorized {
        Ok(
            JsonView::Object(
                map![
                    "status"@ => JsonView::Text("success"@),
                    "loaded_plugins"@ => JsonView::Array(Seq::empty()),
                    "message"@ => JsonView::Text(
                        "Rust service uses compiled extension points; dynamic Python plugins are not loaded."@,
                    ),
                ],
            ),
        )
    } else {
        Err(reply::unauthorized_view())
    }
}

/// The answer to a request to reload plugins.
pub fn reload_plugins(authorized: bool) -> (r: Result<Json, Reply>)
    ensures
        reply::outcome(r) == plugins_outcome(authorized),
{
    if !authorized {
        return Err(reply::unauthorized());
    }
    let mut answer = JsonObject::new();
    answer.put("status", json::text_value("success"));
    answer.put("loaded_plugins", Json::Array(Vec::new()));
    answer.put(
        "message",
        json::text_value(
            "Rust service uses compiled extension points; dynamic Python plugins are not loaded.",
        ),
    );
    Ok(Json::Object(answer))
}

/// However a decision comes out, no address of a trusted proxy is ever added
/// to the blocklist by it.
pub proof fn law_trusted_infrastructure_is_never_blocked(
    blocked: Set<Seq<char>>,
    decision: DecisionView,
    ip: Seq<char>,
    proxies: ProxiesView,
    candidate: Seq<char>,
)
    requires
        !blocked.contains(candidate),
        !origin::is_blockable(candidate, proxies),
    ensures
        !blocked_after(blocked, decision, ip, proxies).contains(candidate),
{
}

/// A decision that is reported as a block of a known address was carried out.
pub proof fn law_reported_blocks_are_in_force(
    blocked: Set<Seq<char>>,
    decision: DecisionView,
    ip: Seq<char>,
    proxies: ProxiesView,
)
    requires
        settled_decision(decision, ip, proxies).action == "block_ip"@,
        ip != "unknown"@,
    ensures
        blocked_after(blocked, decision, ip, proxies).contains(ip),
{
    reveal_strlit("observe");
    reveal_strlit("block_ip");
    assert("observe"@.len() != "block_ip"@.len());
}

/// Without a configured key no TLS fingerprint counts.
pub proof fn law_no_key_no_fingerprint(
    request: MetadataView,
    token: Option<Seq<char>>,
    max_age_seconds: int,
    now: int,
)
    ensures
        proved_request(request, token, Seq::empty(), max_age_seconds, now) == without_fingerprint(
            request,
        ),
{
}

/// What the model proxy binds, the escalation engine accepts: a request that
/// claims what a forwarded payload names keeps its fingerprint while the
/// attestation that the payload carries is recent.
pub proof fn law_bound_fingerprint_is_kept(
    payload: JsonView,
    peer: IpView,
    entries: Seq<(Seq<char>, Option<Seq<char>>)>,
    proxies: ProxiesView,
    request: MetadataView,
    key: Seq<char>,
    issued_at: i64,
    keys: Seq<Seq<char>>,
    max_age_seconds: int,
    now: int,
)
    requires
        ({
            let bound = cloud_proxy::bound_payload(
                payload,
                peer,
                entries,
                proxies,
                key,
                issued_at as int,
            );
            &&& cloud_proxy::carried_attestation(bound) is Some
            &&& claimed_request(request) == cloud_proxy::forwarded_request(bound)
        }),
        keys.contains(key),
        max_age_seconds > 0,
        tls::distance(now, issued_at as int) <= max_age_seconds,
    ensures
        ({
            let bound = cloud_proxy::bound_payload(
                payload,
                peer,
                entries,
                proxies,
                key,
                issued_at as int,
            );
            proved_request(
                request,
                cloud_proxy::carried_attestation(bound),
                keys,
                max_age_seconds,
                now,
            ) == request
        }),
{
    cloud_proxy::law_bound_payload_is_attested(
        payload,
        peer,
        entries,
        proxies,
        key,
        issued_at,
        keys,
        max_age_seconds,
        now,
    );
}

} // verus!
