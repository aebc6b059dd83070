//! The model proxy: it strips what callers claim about their TLS handshake and
//! binds what trusted infrastructure observed.
use vstd::prelude::*;
use crate::headers::Headers;
use crate::ip::{IpAddress, IpView};
use crate::json;
use crate::json::{Json, JsonObject, JsonView};
use crate::origin;
use crate::origin::{ProxiesView, TrustedProxies};
use crate::outside;
use crate::settings;
use crate::tls;
use crate::tls::{FingerprintView, RequestView};

verus! {

/// The members without any claim about a TLS handshake.
pub open spec fn without_claims(members: Map<Seq<char>, JsonView>) -> Map<Seq<char>, JsonView> {
    members.remove("tls_ja3"@).remove("tls_ja4"@).remove("tls_fingerprint_source"@).remove(
        "tls_fingerprint_attestation"@,
    ).remove("tls_fingerprint_verified"@)
}

/// The text of a member, or a default.
pub open spec fn text_member_or(
    members: Map<Seq<char>, JsonView>,
    name: Seq<char>,
    default: Seq<char>,
) -> Seq<char> {
    match json::text_of(json::member(JsonView::Object(members), name)) {
        Some(s) => s,
        None => default,
    }
}

/// The members with an optional text added.
pub open spec fn with_text(
    members: Map<Seq<char>, JsonView>,
    name: Seq<char>,
    value: Option<Seq<char>>,
) -> Map<Seq<char>, JsonView> {
    match value {
        Some(s) => members.insert(name, JsonView::Text(s)),
        None => members,
    }
}

/// The request that an attestation binds, as the members describe it.
pub open spec fn described_request(
    members: Map<Seq<char>, JsonView>,
    client_ip: Seq<char>,
    fingerprint: FingerprintView,
) -> RequestView {
    RequestView {
        client_ip,
        method: text_member_or(members, "method"@, "GET"@),
        path: text_member_or(members, "path"@, Seq::empty()),
        fingerprint,
    }
}

/// The members with the client, its fingerprint and the attestation of both.
pub open spec fn with_attestation(
    members: Map<Seq<char>, JsonView>,
    client_ip: Seq<char>,
    fingerprint: FingerprintView,
    token: Seq<char>,
) -> Map<Seq<char>, JsonView> {
    with_text(
        with_text(
            members.insert("ip"@, JsonView::Text(client_ip)),
            "tls_ja3"@,
            fingerprint.ja3,
        ),
        "tls_ja4"@,
        fingerprint.ja4,
    ).insert("tls_fingerprint_source"@, JsonView::Text(fingerprint.source)).insert(
        "tls_fingerprint_attestation"@,
        JsonView::Text(token),
    )
}

/// The payload as it is forwarded: callers' claims are gone from every object,
/// and what a trusted peer observed is bound where the key can attest it.
pub open spec fn bound_payload(
    payload: JsonView,
    peer: IpView,
    entries: Seq<(Seq<char>, Option<Seq<char>>)>,
    proxies: ProxiesView,
    key: Seq<char>,
    now: int,
) -> JsonView {
    match payload {
        JsonView::Object(members) => {
            let clean = without_claims(members);
            match (
                origin::observed_fingerprint(peer, entries, proxies),
                origin::opt_ip_text(origin::originating_ip(peer, entries, proxies)),
            ) {
                (Some(fingerprint), Some(client_ip)) => match tls::attestation_token(
                    key,
                    now,
                    described_request(clean, client_ip, fingerprint),
                ) {
                    Some(token) => JsonView::Object(
                        with_attestation(clean, client_ip, fingerprint, token),
                    ),
                    None => JsonView::Object(clean),
                },
                _ => JsonView::Object(clean),
            }
        },
        _ => payload,
    }
}

/// The text of a member, or a default.
fn read_text_or(members: &JsonObject, name: &str, default: &str) -> (r: String)
    ensures
        r@ == text_member_or(members@, name@, default@),
{
    match members.get(name) {
        Some(value) => match value.as_text() {
            Some(s) => s.to_string(),
            None => default.to_string(),
        },
        None => default.to_string(),
    }
}

/// The payload as it is forwarded at a given time.
pub fn bind_trusted_tls_fingerprint_at(
    payload: Json,
    peer: &IpAddress,
    headers: &Headers,
    proxies: &TrustedProxies,
    key: &str,
    now: i64,
) -> (r: Json)
    ensures
        r@ == bound_payload(payload@, peer@, headers@, proxies@, key@, now as int),
{
    let mut object = match payload {
        Json::Object(members) => members,
        other => {
            return other;
        },
    };
    object.remove("tls_ja3");
    object.remove("tls_ja4");
    object.remove("tls_fingerprint_source");
    object.remove("tls_fingerprint_attestation");
    object.remove("tls_fingerprint_verified");
    let ghost clean = object@;
    let fingerprint = match origin::trusted_tls_fingerprint(peer, headers, proxies) {
        Some(found) => found,
        None => {
            return Json::Object(object);
        },
    };
    let client_ip = match origin::trusted_originating_client_ip(peer, headers, proxies) {
        Some(found) => found,
        None => {
            return Json::Object(object);
        },
    };
    proof {
        reveal_strlit("");
        assert(""@ =~= Seq::<char>::empty());
    }
    let method = read_text_or(&object, "method", "GET");
    let path = read_text_or(&object, "path", "");
    let token = match tls::create_tls_fingerprint_attestation(
        key,
        now,
        client_ip.as_str(),
        method.as_str(),
        path.as_str(),
        &fingerprint,
    ) {
        Some(found) => found,
        None => {
            return Json::Object(object);
        },
    };
    object.put("ip", json::text_value(client_ip.as_str()));
    if let Some(ja3) = &fingerprint.ja3 {
        object.put("tls_ja3", json::text_value(ja3.as_str()));
    }
    if let Some(ja4) = &fingerprint.ja4 {
        object.put("tls_ja4", json::text_value(ja4.as_str()));
    }
    object.put("tls_fingerprint_source", json::text_value(fingerprint.source.as_str()));
    object.put("tls_fingerprint_attestation", json::text_value(token.as_str()));
    Json::Object(object)
}

/// The payload as it is forwarded.
pub fn bind_trusted_tls_fingerprint(
    payload: Json,
    peer: &IpAddress,
    headers: &Headers,
    proxies: &TrustedProxies,
    key: &str,
) -> (r: Json)
    ensures
        exists|now: i64|
            r@ == #[trigger] bound_payload(payload@, peer@, headers@, proxies@, key@, now as int),
{
    let now = outside::now_seconds();
    bind_trusted_tls_fingerprint_at(payload, peer, headers, proxies, key, now)
}

/// What is answered where no provider is configured.
pub open spec fn not_configured_answer(payload: JsonView) -> JsonView {
    JsonView::Object(
        map![
            "status"@ => JsonView::Text("not_configured"@),
            "provider"@ => JsonView::Text("none"@),
            "message"@ => JsonView::Text(
                "Set CLOUD_MODEL_API_URL and MODEL_PROVIDER to enable upstream model proxying"@,
            ),
            "request"@ => payload,
        ],
    )
}

/// What is answered where no provider is configured.
pub fn not_configured(payload: Json) -> (r: Json)
    ensures
        r@ == not_configured_answer(payload@),
{
    let mut answer = JsonObject::new();
    answer.put("status", json::text_value("not_configured"));
    answer.put("provider", json::text_value("none"));
    answer.put(
        "message",
        json::text_value(
            "Set CLOUD_MODEL_API_URL and MODEL_PROVIDER to enable upstream model proxying",
        ),
    );
    answer.put("request", payload);
    Json::Object(answer)
}

/// What is answered where the provider could not be reached.
pub open spec fn unreachable_answer(message: Seq<char>) -> JsonView {
    JsonView::Object(
        map![
            "status"@ => JsonView::Text("error"@),
            "provider"@ => JsonView::Text("configured"@),
            "upstream_status"@ => JsonView::Int(502),
            "message"@ => JsonView::Text(message),
        ],
    )
}

/// What is answered where the provider could not be reached.
pub fn provider_unreachable(message: &str) -> (r: Json)
    ensures
        r@ == unreachable_answer(message@),
{
    let mut answer = JsonObject::new();
    answer.put("status", json::text_value("error"));
    answer.put("provider", json::text_value("configured"));
    answer.put("upstream_status", Json::Unsigned(502));
    answer.put("message", json::text_value(message));
    Json::Object(answer)
}

/// The names that a payload is bound under are different ones.
proof fn lemma_claim_names()
    ensures
        "tls_ja3"@ != "tls_ja4"@,
        "tls_ja3"@ != "tls_fingerprint_source"@,
        "tls_ja3"@ != "tls_fingerprint_attestation"@,
        "tls_ja4"@ != "tls_fingerprint_source"@,
        "tls_ja4"@ != "tls_fingerprint_attestation"@,
        "tls_fingerprint_source"@ != "tls_fingerprint_attestation"@,
        "tls_fingerprint_verified"@ != "ip"@,
        "tls_fingerprint_verified"@ != "tls_ja3"@,
        "tls_fingerprint_verified"@ != "tls_ja4"@,
        "tls_fingerprint_verified"@ != "tls_fingerprint_source"@,
        "tls_fingerprint_verified"@ != "tls_fingerprint_attestation"@,
        "ip"@.len() == 2,
        "path"@.len() == 4,
        "method"@.len() == 6,
        "tls_ja3"@.len() == 7,
        "tls_ja4"@.len() == 7,
        "tls_fingerprint_source"@.len() == 22,
        "tls_fingerprint_attestation"@.len() == 27,
{
    reveal_strlit("tls_ja3");
    reveal_strlit("tls_ja4");
    reveal_strlit("tls_fingerprint_source");
    reveal_strlit("tls_fingerprint_attestation");
    reveal_strlit("tls_fingerprint_verified");
    reveal_strlit("ip");
    reveal_strlit("path");
    reveal_strlit("method");
    assert("tls_ja3"@[6] != "tls_ja4"@[6]);
    assert("tls_fingerprint_verified"@.len() == 24);
    assert("tls_fingerprint_source"@.len() == 22);
    assert("tls_fingerprint_attestation"@.len() == 27);
}

/// A caller's own claim of verification never gets through, whoever calls.
pub proof fn law_claimed_verification_is_removed(
    payload: JsonView,
    peer: IpView,
    entries: Seq<(Seq<char>, Option<Seq<char>>)>,
    proxies: ProxiesView,
    key: Seq<char>,
    now: int,
)
    ensures
        json::member(
            bound_payload(payload, peer, entries, proxies, key, now),
            "tls_fingerprint_verified"@,
        ) is None,
{
    lemma_claim_names();
}

/// From a peer that is no trusted proxy, no claim about TLS gets through, and
/// everything else does.
pub proof fn law_direct_claims_are_removed(
    members: Map<Seq<char>, JsonView>,
    peer: IpView,
    entries: Seq<(Seq<char>, Option<Seq<char>>)>,
    proxies: ProxiesView,
    key: Seq<char>,
    now: int,
)
    requires
        !origin::is_trusted(peer, proxies),
    ensures
        ({
            let bound = bound_payload(
                JsonView::Object(members),
                peer,
                entries,
                proxies,
                key,
                now,
            );
            &&& bound == JsonView::Object(without_claims(members))
            &&& json::member(bound, "tls_ja3"@) is None
            &&& json::member(bound, "tls_ja4"@) is None
            &&& json::member(bound, "tls_fingerprint_source"@) is None
            &&& json::member(bound, "tls_fingerprint_attestation"@) is None
            &&& json::member(bound, "tls_fingerprint_verified"@) is None
        }),
{
    origin::law_untrusted_peer_is_ignored(peer, entries, proxies);
}

/// The request that a payload describes, with the fingerprint that it names.
pub open spec fn forwarded_request(payload: JsonView) -> RequestView {
    RequestView {
        client_ip: tls::or_empty(json::text_of(json::member(payload, "ip"@))),
        method: settings::string_setting(
            json::text_of(json::member(payload, "method"@)),
            "GET"@,
        ),
        path: tls::or_empty(json::text_of(json::member(payload, "path"@))),
        fingerprint: FingerprintView {
            ja3: json::text_of(json::member(payload, "tls_ja3"@)),
            ja4: json::text_of(json::member(payload, "tls_ja4"@)),
            source: tls::or_empty(json::text_of(json::member(payload, "tls_fingerprint_source"@))),
        },
    }
}

/// The attestation that a payload carries.
pub open spec fn carried_attestation(payload: JsonView) -> Option<Seq<char>> {
    json::text_of(json::member(payload, "tls_fingerprint_attestation"@))
}

/// What is bound can be verified: whatever came in, the attestation that a
/// forwarded payload carries attests the client, the method, the path and the
/// fingerprint that the same payload names, under any keys that hold the signing
/// key, for as long as it is recent.
pub proof fn law_bound_payload_is_attested(
    payload: JsonView,
    peer: IpView,
    entries: Seq<(Seq<char>, Option<Seq<char>>)>,
    proxies: ProxiesView,
    key: Seq<char>,
    issued_at: i64,
    keys: Seq<Seq<char>>,
    max_age_seconds: int,
    now: int,
)
    requires
        carried_attestation(
            bound_payload(payload, peer, entries, proxies, key, issued_at as int),
        ) is Some,
        keys.contains(key),
        max_age_seconds > 0,
        tls::distance(now, issued_at as int) <= max_age_seconds,
    ensures
        ({
            let bound = bound_payload(payload, peer, entries, proxies, key, issued_at as int);
            tls::attests(
                carried_attestation(bound),
                keys,
                max_age_seconds,
                now,
                forwarded_request(bound),
            )
        }),
{
    lemma_claim_names();
    let bound = bound_payload(payload, peer, entries, proxies, key, issued_at as int);
    let clean = without_claims(payload->Object_0);
    assert(carried_attestation(JsonView::Object(clean)) is None);
    let fingerprint = origin::observed_fingerprint(peer, entries, proxies)->0;
    let client_ip = origin::opt_ip_text(origin::originating_ip(peer, entries, proxies))->0;
    let described = described_request(clean, client_ip, fingerprint);
    let token = tls::attestation_token(key, issued_at as int, described)->0;
    assert(bound == JsonView::Object(with_attestation(clean, client_ip, fingerprint, token)));
    assert(forwarded_request(bound) == described);
    tls::law_attestation_round_trip(key, issued_at, described, keys, max_age_seconds, now);
}

} // verus!
