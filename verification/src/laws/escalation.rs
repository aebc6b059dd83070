//! What an escalation is owed: whose TLS values count, which decisions block an
//! address, and what is answered and recorded of them.
use vstd::prelude::*;
use crate::audit::SecurityEvent;
use crate::detection::{Decision, DecisionView, ExtractedFeatures, RequestMetadata};
use crate::escalation;
use crate::escalation::StartChoice;
use crate::json;
use crate::json::{Json, JsonView};
use crate::laws::answers;
use crate::laws::answers::{refuses, says};
use crate::origin;
use crate::origin::ProxiesView;
use crate::reply::Reply;
use crate::text;
use crate::tls;
use crate::tls::TlsAttestationContext;

verus! {

/// What tells these names apart.
proof fn lemma_verdicts_differ()
    ensures
        "block_ip"@.len() == 8,
        "observe"@.len() == 7,
        "unknown"@.len() == 7,
        "observe"@[0] == 'o',
        "unknown"@[0] == 'u',
{
    reveal_strlit("block_ip");
    reveal_strlit("observe");
    reveal_strlit("unknown");
}

/// A decision to block an address that can be blocked puts it on the list and
/// stands as it is.
pub proof fn law_decided_blocks_are_carried_out(
    blocked: Set<Seq<char>>,
    decision: DecisionView,
    ip: Seq<char>,
    proxies: ProxiesView,
)
    requires
        decision.action == "block_ip"@,
        ip != "unknown"@,
        origin::is_blockable(ip, proxies),
    ensures
        escalation::blocked_after(blocked, decision, ip, proxies) == blocked.insert(ip),
        escalation::settled_decision(decision, ip, proxies) == decision,
{
}

/// A decision to block an address that cannot be blocked is only observed: the
/// list stays, the reason says why, and everything else of the decision is kept.
pub proof fn law_suppressed_blocks_are_observed(
    blocked: Set<Seq<char>>,
    decision: DecisionView,
    ip: Seq<char>,
    proxies: ProxiesView,
)
    requires
        decision.action == "block_ip"@,
        ip != "unknown"@,
        !origin::is_blockable(ip, proxies),
    ensures
        ({
            let settled = escalation::settled_decision(decision, ip, proxies);
            &&& escalation::blocked_after(blocked, decision, ip, proxies) == blocked
            &&& settled.action == "observe"@
            &&& settled.reason == decision.reason
                + "; block suppressed because the address is invalid or trusted infrastructure"@
            &&& settled.is_bot == decision.is_bot
            &&& settled.fingerprint == decision.fingerprint
            &&& settled.tls_ja3 == decision.tls_ja3
            &&& settled.tls_ja4 == decision.tls_ja4
            &&& settled.tls_fingerprint_source == decision.tls_fingerprint_source
            &&& settled.features == decision.features
        }),
{
}

/// Any other decision, and any on a client that nobody knows, blocks nothing and
/// stands as it is.
pub proof fn law_other_decisions_block_nothing(
    blocked: Set<Seq<char>>,
    decision: DecisionView,
    ip: Seq<char>,
    proxies: ProxiesView,
)
    requires
        decision.action != "block_ip"@ || ip == "unknown"@,
    ensures
        escalation::blocked_after(blocked, decision, ip, proxies) == blocked,
        escalation::settled_decision(decision, ip, proxies) == decision,
{
}

/// TLS values count exactly where a token attests them for this request: its
/// client, its method (GET where none is named), its path and the values
/// themselves. Otherwise they are dropped, and nothing else of the request is.
pub proof fn law_only_attested_values_count(
    metadata: RequestMetadata,
    attestation: Option<&str>,
    keys: &[&str],
    max_age_seconds: u64,
    now: i64,
    context: TlsAttestationContext<'_>,
    attested: bool,
    kept: RequestMetadata,
)
    requires
        call_ensures(
            escalation::retain_attested_fingerprint,
            (metadata, attestation, keys, max_age_seconds, now),
            kept,
        ),
        call_ensures(
            tls::verify_tls_fingerprint_attestation_with_keys,
            (attestation, keys, max_age_seconds, &context),
            attested,
        ),
        context.now == now,
        metadata.ip matches Some(ip) ==> context.client_ip@ == ip@,
        metadata.ip is None ==> context.client_ip@.len() == 0,
        metadata.method matches Some(method) ==> context.method@ == method@,
        metadata.method is None ==> context.method@ == "GET"@,
        metadata.path matches Some(path) ==> context.path@ == path@,
        metadata.path is None ==> context.path@.len() == 0,
        text::opt_view(context.fingerprint.ja3) == text::opt_view(metadata.tls_ja3),
        text::opt_view(context.fingerprint.ja4) == text::opt_view(metadata.tls_ja4),
        metadata.tls_fingerprint_source matches Some(source) ==> context.fingerprint.source@
            == source@,
        metadata.tls_fingerprint_source is None ==> context.fingerprint.source@.len() == 0,
    ensures
        attested ==> kept@ == metadata@,
        !attested ==> kept.tls_ja3 is None && kept.tls_ja4 is None && kept.tls_fingerprint_source
            is None,
        kept@.ip == metadata@.ip,
        kept@.path == metadata@.path,
        kept@.method == metadata@.method,
        kept@.user_agent == metadata@.user_agent,
        kept@.referer == metadata@.referer,
        kept@.headers == metadata@.headers,
        kept@.fingerprint_id == metadata@.fingerprint_id,
        kept.status == metadata.status,
        kept.bytes == metadata.bytes,
        kept.timestamp == metadata.timestamp,
        kept.fingerprint_reuse_count == metadata.fingerprint_reuse_count,
        kept.verified_bot == metadata.verified_bot,
{
    let none = Seq::<char>::empty();
    if metadata.ip is None {
        assert(context.client_ip@ =~= none);
    }
    if metadata.path is None {
        assert(context.path@ =~= none);
    }
    if metadata.tls_fingerprint_source is None {
        assert(context.fingerprint.source@ =~= none);
    }
    assert(context.request() == escalation::claimed_request(metadata@));
}

/// A client that nobody names is unknown.
pub proof fn law_clients_are_named(metadata: RequestMetadata, client: String)
    requires
        call_ensures(escalation::client_of, (&metadata,), client),
    ensures
        metadata.ip matches Some(ip) ==> client@ == ip@,
        metadata.ip is None ==> client@ == "unknown"@,
{
}

/// What tells these names apart.
proof fn lemma_decision_names_differ()
    ensures
        "status"@.len() == 6,
        "is_bot"@.len() == 6,
        "score"@.len() == 5,
        "action"@.len() == 6,
        "reason"@.len() == 6,
        "fingerprint"@.len() == 11,
        "features"@.len() == 8,
        "status"@[0] == 's',
        "is_bot"@[0] == 'i',
        "action"@[0] == 'a',
        "reason"@[0] == 'r',
{
    reveal_strlit("status");
    reveal_strlit("is_bot");
    reveal_strlit("score");
    reveal_strlit("action");
    reveal_strlit("reason");
    reveal_strlit("fingerprint");
    reveal_strlit("features");
}

/// A decision is recorded as it was made, by the client that it is about.
pub proof fn law_decisions_are_recorded(
    decision: Decision,
    score: &str,
    ip: &str,
    event: SecurityEvent,
)
    requires
        call_ensures(escalation::record_decision, (&decision, score, ip), event),
    ensures
        event@.event_type == "escalation_decision"@,
        event@.actor == ip@,
        json::member(event@.payload, "is_bot"@) == Some(JsonView::Bool(decision.is_bot)),
        json::member(event@.payload, "score"@) == Some(JsonView::Decimal(score@)),
        says(event@.payload, "action"@, decision.action@),
        says(event@.payload, "reason"@, decision.reason@),
        says(event@.payload, "fingerprint"@, decision.fingerprint@),
{
    lemma_decision_names_differ();
}

/// A decision is answered as it was made, with the features it was made of.
pub proof fn law_decisions_are_answered(
    decision: Decision,
    score: &str,
    time_since: &str,
    answer: Json,
    features: Json,
)
    requires
        call_ensures(escalation::answer_decision, (&decision, score, time_since), answer),
        call_ensures(escalation::describe_features, (&decision.features, time_since), features),
    ensures
        says(answer@, "status"@, "success"@),
        json::member(answer@, "is_bot"@) == Some(JsonView::Bool(decision.is_bot)),
        json::member(answer@, "score"@) == Some(JsonView::Decimal(score@)),
        says(answer@, "action"@, decision.action@),
        says(answer@, "reason"@, decision.reason@),
        says(answer@, "fingerprint"@, decision.fingerprint@),
        json::member(answer@, "features"@) == Some(features@),
{
    lemma_decision_names_differ();
}

/// What tells these names apart.
proof fn lemma_feature_names_differ()
    ensures
        "country_code"@.len() == 12,
        "ua_length"@.len() == 9,
        "status_code"@.len() == 11,
        "bytes_sent"@.len() == 10,
        "http_method"@.len() == 11,
        "path_depth"@.len() == 10,
        "path_length"@.len() == 11,
        "path_is_root"@.len() == 12,
        "path_has_docs"@.len() == 13,
        "path_is_wp"@.len() == 10,
        "path_disallowed"@.len() == 15,
        "ua_is_known_bad"@.len() == 15,
        "ua_is_known_benign_crawler"@.len() == 26,
        "ua_is_empty"@.len() == 11,
        "ua_library_is_bot"@.len() == 17,
        "referer_is_empty"@.len() == 16,
        "referer_has_domain"@.len() == 18,
        "hour_of_day"@.len() == 11,
        "day_of_week"@.len() == 11,
        "request_frequency"@.len() == 17,
        "time_since_last_sec"@.len() == 19,
        "fingerprint_reuse_count"@.len() == 23,
        "country_code"@[0] == 'c',
        "path_is_root"@[0] == 'p',
        "status_code"@[3] == 't',
        "http_method"@[3] == 'p',
        "path_length"@[3] == 'h',
        "ua_is_empty"@[3] == 'i',
        "hour_of_day"@[3] == 'r',
        "day_of_week"@[3] == '_',
        "bytes_sent"@[5] == '_',
        "path_depth"@[5] == 'd',
        "path_is_wp"@[5] == 'i',
        "path_disallowed"@[0] == 'p',
        "ua_is_known_bad"@[0] == 'u',
        "ua_library_is_bot"@[0] == 'u',
        "request_frequency"@[0] == 'r',
{
    reveal_strlit("country_code");
    reveal_strlit("ua_length");
    reveal_strlit("status_code");
    reveal_strlit("bytes_sent");
    reveal_strlit("http_method");
    reveal_strlit("path_depth");
    reveal_strlit("path_length");
    reveal_strlit("path_is_root");
    reveal_strlit("path_has_docs");
    reveal_strlit("path_is_wp");
    reveal_strlit("path_disallowed");
    reveal_strlit("ua_is_known_bad");
    reveal_strlit("ua_is_known_benign_crawler");
    reveal_strlit("ua_is_empty");
    reveal_strlit("ua_library_is_bot");
    reveal_strlit("referer_is_empty");
    reveal_strlit("referer_has_domain");
    reveal_strlit("hour_of_day");
    reveal_strlit("day_of_week");
    reveal_strlit("request_frequency");
    reveal_strlit("time_since_last_sec");
    reveal_strlit("fingerprint_reuse_count");
}

/// The features are told under their own names.
pub proof fn law_features_are_told(features: ExtractedFeatures, time_since: &str, document: Json)
    requires
        call_ensures(escalation::describe_features, (&features, time_since), document),
    ensures
        ({
            let told = document@;
            &&& says(told, "country_code"@, features.country_code@)
            &&& says(told, "http_method"@, features.http_method@)
            &&& json::member(told, "ua_length"@) == Some(JsonView::Int(features.ua_length as int))
            &&& json::member(told, "status_code"@) == Some(
                JsonView::Int(features.status_code as int),
            )
            &&& json::member(told, "bytes_sent"@) == Some(JsonView::Int(features.bytes_sent as int))
            &&& json::member(told, "path_depth"@) == Some(JsonView::Int(features.path_depth as int))
            &&& json::member(told, "path_length"@) == Some(
                JsonView::Int(features.path_length as int),
            )
            &&& json::member(told, "path_is_root"@) == Some(
                JsonView::Int(features.path_is_root as int),
            )
            &&& json::member(told, "path_has_docs"@) == Some(
                JsonView::Int(features.path_has_docs as int),
            )
            &&& json::member(told, "path_is_wp"@) == Some(JsonView::Int(features.path_is_wp as int))
            &&& json::member(told, "path_disallowed"@) == Some(
                JsonView::Int(features.path_disallowed as int),
            )
            &&& json::member(told, "ua_is_known_bad"@) == Some(
                JsonView::Int(features.ua_is_known_bad as int),
            )
            &&& json::member(told, "ua_is_known_benign_crawler"@) == Some(
                JsonView::Int(features.ua_is_known_benign_crawler as int),
            )
            &&& json::member(told, "ua_is_empty"@) == Some(
                JsonView::Int(features.ua_is_empty as int),
            )
            &&& json::member(told, "ua_library_is_bot"@) == Some(
                JsonView::Int(features.ua_library_is_bot as int),
            )
            &&& json::member(told, "referer_is_empty"@) == Some(
                JsonView::Int(features.referer_is_empty as int),
            )
            &&& json::member(told, "referer_has_domain"@) == Some(
                JsonView::Int(features.referer_has_domain as int),
            )
            &&& json::member(told, "hour_of_day"@) == Some(
                JsonView::Int(features.hour_of_day as int),
            )
            &&& json::member(told, "day_of_week"@) == Some(
                JsonView::Int(features.day_of_week as int),
            )
            &&& json::member(told, "request_frequency"@) == Some(
                JsonView::Int(features.request_frequency as int),
            )
            &&& json::member(told, "time_since_last_sec"@) == Some(JsonView::Decimal(time_since@))
            &&& json::member(told, "fingerprint_reuse_count"@) == Some(
                JsonView::Int(features.fingerprint_reuse_count as int),
            )
        }),
{
    lemma_feature_names_differ();
}

/// A service starts with the artifact that is configured and there, with the
/// heuristics where none is configured or there, and not at all where that
/// cannot be told.
pub proof fn law_services_start_with_a_detector(
    configured: bool,
    found: Option<bool>,
    choice: StartChoice,
)
    requires
        call_ensures(escalation::choose_detector, (configured, found), choice),
    ensures
        choice is Artifact <==> configured && found == Some(true),
        choice is Heuristics <==> !configured || found == Some(false),
        choice is Failure <==> configured && found is None,
{
    if let Some(there) = found {
        assert(there || !there);
        if there {
            assert(found == Some(true));
        } else {
            assert(found == Some(false));
        }
    }
}

/// A detector is replaced by one that was loaded, and only by that.
pub proof fn law_failed_reloads_keep_the_detector(
    current: Option<u64>,
    loaded: Option<u64>,
    replaced: (Option<u64>, bool),
)
    requires
        call_ensures(escalation::replace_detector::<u64>, (current, loaded), replaced),
    ensures
        loaded is Some ==> replaced.0 == loaded && replaced.1,
        loaded is None ==> replaced.0 == current && !replaced.1,
{
}

/// What tells these names apart.
proof fn lemma_reload_names_differ()
    ensures
        "status"@.len() == 6,
        "detector"@.len() == 8,
        "model_path"@.len() == 10,
        "service"@.len() == 7,
        "loaded_plugins"@.len() == 14,
        "message"@.len() == 7,
        "service"@[0] == 's',
        "message"@[0] == 'm',
{
    reveal_strlit("status");
    reveal_strlit("detector");
    reveal_strlit("model_path");
    reveal_strlit("service");
    reveal_strlit("loaded_plugins");
    reveal_strlit("message");
}

/// A reload is answered with what happened: 401 to whom is not authorized, 400
/// without a path, 503 where loading failed.
pub proof fn law_reloads_are_answered(
    authorized: bool,
    path: Option<&str>,
    loaded: bool,
    answer: Result<Json, Reply>,
)
    requires
        call_ensures(escalation::reload_model, (authorized, path, loaded), answer),
    ensures
        answer is Ok <==> authorized && path is Some && loaded,
        answer matches Ok(done) ==> says(done@, "status"@, "success"@) && says(
            done@,
            "detector"@,
            "trained"@,
        ) && says(done@, "model_path"@, path->0@),
        !authorized ==> refuses(answer->Err_0@, 401, "Unauthorized"@),
        authorized && path is None ==> refuses(
            answer->Err_0@,
            400,
            "DETECTION_MODEL_PATH is not configured; nothing to reload"@,
        ),
        authorized && path is Some && !loaded ==> refuses(
            answer->Err_0@,
            503,
            "failed to load the model artifact; the previous detector remains active"@,
        ),
{
    lemma_reload_names_differ();
    answers::lemma_refusal(401, "Unauthorized"@);
    answers::lemma_refusal(400, "DETECTION_MODEL_PATH is not configured; nothing to reload"@);
    answers::lemma_refusal(
        503,
        "failed to load the model artifact; the previous detector remains active"@,
    );
}

/// A reload is recorded with its path, and plugins are never loaded.
pub proof fn law_reloads_are_recorded(
    path: &str,
    event: SecurityEvent,
    authorized: bool,
    plugins: Result<Json, Reply>,
)
    requires
        call_ensures(escalation::record_reload, (path,), event),
        call_ensures(escalation::reload_plugins, (authorized,), plugins),
    ensures
        event@.event_type == "admin_reload_model"@,
        event@.actor == "admin"@,
        says(event@.payload, "service"@, "escalation-engine"@),
        says(event@.payload, "model_path"@, path@),
        plugins is Ok <==> authorized,
        plugins matches Ok(done) ==> says(done@, "status"@, "success"@) && json::member(
            done@,
            "loaded_plugins"@,
        ) == Some(JsonView::Array(Seq::empty())),
        plugins matches Err(refusal) ==> refuses(refusal@, 401, "Unauthorized"@),
{
    lemma_reload_names_differ();
    answers::lemma_refusal(401, "Unauthorized"@);
}

} // verus!
