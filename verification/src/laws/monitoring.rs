//! What the watching of traffic is owed: how requests are counted, what the
//! dashboard shows, and where traces go.
use vstd::prelude::*;
use crate::dashboard;
use crate::dashboard::DashboardState;
use crate::detection::FrequencyFeatures;
use crate::frequency;
use crate::frequency::StoreStep;
use crate::json;
use crate::json::{Json, JsonView};
use crate::laws::answers::says;
use crate::outside;
use crate::outside::UriParts;
use crate::telemetry;
use crate::telemetry::EndpointFault;
use crate::text;

verus! {

/// A request counts for as long as the window reaches back to it, in the order of
/// arrival; one that lies ahead of the clock counts too.
pub proof fn law_requests_count_within_the_window(
    moments: Seq<u64>,
    moment: u64,
    now: u64,
    window: u64,
)
    ensures
        moment + window >= now ==> frequency::recent(moments.push(moment), now, window)
            == frequency::recent(moments, now, window).push(moment),
        moment + window < now ==> frequency::recent(moments.push(moment), now, window)
            == frequency::recent(moments, now, window),
        frequency::recent(Seq::<u64>::empty(), now, window).len() == 0,
{
    assert(moments.push(moment).drop_last() =~= moments);
    assert(moments.push(moment).last() == moment);
}

/// A client without requests is unknown, and what a sweep keeps of one is what
/// still counts.
pub proof fn law_sweeps_keep_what_counts(
    seen: Map<Seq<char>, Seq<u64>>,
    key: Seq<char>,
    now: u64,
    window: u64,
)
    ensures
        !seen.contains_key(key) ==> frequency::known_moments(seen, key).len() == 0,
        seen.contains_key(key) ==> frequency::known_moments(seen, key) == seen[key],
        frequency::swept(seen, now, window).contains_key(key) <==> seen.contains_key(key)
            && frequency::recent(seen[key], now, window).len() > 0,
        frequency::swept(seen, now, window).contains_key(key) ==> frequency::swept(
            seen,
            now,
            window,
        )[key] == frequency::recent(seen[key], now, window),
{
}

/// The time since a request is what passed, and nothing where it lies ahead.
pub proof fn law_elapsed_time(from: u64, to: u64)
    ensures
        from <= to ==> from + frequency::elapsed(from, to) == to,
        from > to ==> frequency::elapsed(from, to) == 0,
{
}

/// The shared store is asked step by step; only a failure to reach it or to trim
/// it falls back to memory.
pub proof fn law_store_steps(step: StoreStep, ok: bool, next: StoreStep)
    requires
        call_ensures(frequency::next_step, (step, ok), next),
    ensures
        step is Connect && ok ==> next is Trim,
        step is Trim && ok ==> next is Insert,
        step is Insert ==> next is Count,
        step is Count ==> next is Latest,
        step is Latest ==> next is Expire,
        step is Expire || step is Answered ==> next is Answered,
        next is Fallback <==> step is Fallback || (!ok && (step is Connect || step is Trim)),
{
}

/// The store counts the request that asks, which the features do not; its
/// milliseconds are their nanoseconds. Without a count there are no features.
pub proof fn law_store_counts_are_read(
    count: Option<u64>,
    milliseconds: Option<i64>,
    features: Option<FrequencyFeatures>,
)
    requires
        call_ensures(frequency::features_from_store, (count, milliseconds), features),
    ensures
        features is Some <==> count is Some,
        count matches Some(n) ==> n > 0 ==> features->0.count == n - 1,
        count matches Some(n) ==> n == 0 ==> features->0.count == 0,
        count is Some ==> (milliseconds is None ==> features->0.time_since is None),
        count is Some ==> (milliseconds matches Some(passed) ==> (features->0.time_since matches Some(
            nanoseconds,
        ) && nanoseconds == passed * 1_000_000)),
{
}

/// A client is filed under its address, for a minute longer than the window.
pub proof fn law_store_entries(prefix: &str, ip: &str, window: u64, key: String, ttl: u64)
    requires
        window <= u64::MAX - 60,
        call_ensures(frequency::frequency_key, (prefix, ip), key),
        call_ensures(frequency::store_ttl, (window,), ttl),
    ensures
        key@ == prefix@ + ip@,
        ttl == window + 60,
{
}

/// What tells these names apart.
proof fn lemma_dashboard_names_differ()
    ensures
        "status"@.len() == 6,
        "installation"@.len() == 12,
        "installation_id"@.len() == 15,
        "metrics"@.len() == 7,
{
    reveal_strlit("status");
    reveal_strlit("installation");
    reveal_strlit("installation_id");
    reveal_strlit("metrics");
}

/// An installation is registered as it describes itself.
pub proof fn law_installations_register(payload: Json, answer: Json)
    requires
        call_ensures(dashboard::register, (payload,), answer),
    ensures
        says(answer@, "status"@, "registered"@),
        json::member(answer@, "installation"@) == Some(payload@),
{
    lemma_dashboard_names_differ();
}

/// Metrics belong to the installation that they name, or to the default one.
pub proof fn law_metrics_belong_to_an_installation(payload: JsonView)
    ensures
        json::member(payload, "installation_id"@) matches Some(JsonView::Text(id))
            ==> dashboard::installation_of(payload) == id,
        !(json::member(payload, "installation_id"@) matches Some(JsonView::Text(_)))
            ==> dashboard::installation_of(payload) == "default"@,
{
}

/// The metrics of an installation are shown as it pushed them, and as empty
/// before.
pub proof fn law_metrics_are_shown(state: DashboardState, id: &str, shown: Json)
    requires
        state.well_formed(),
        call_ensures(DashboardState::get_metrics, (&state, id), shown),
    ensures
        says(shown@, "installation_id"@, id@),
        state@.contains_key(id@) ==> json::member(shown@, "metrics"@) == Some(state@[id@]),
        !state@.contains_key(id@) ==> json::member(shown@, "metrics"@) == Some(
            JsonView::Object(Map::empty()),
        ),
{
    lemma_dashboard_names_differ();
}

/// A listener is greeted by name.
pub proof fn law_listeners_are_greeted(id: &str, words: String)
    requires
        call_ensures(dashboard::greeting, (id,), words),
    ensures
        words@ == "{\"status\":\"connected\",\"installation_id\":\""@ + id@ + "\"}"@,
{
}

/// Traces go over HTTP or HTTPS to an endpoint with an authority; any other
/// endpoint is named as what it is.
pub proof fn law_traces_go_over_http(
    uri: UriParts,
    error: String,
    judged: Option<EndpointFault>,
    unread: Option<EndpointFault>,
)
    requires
        call_ensures(telemetry::judge_endpoint, (Ok(uri),), judged),
        call_ensures(telemetry::judge_endpoint, (Err(error),), unread),
    ensures
        judged is None <==> uri.has_authority && (uri.scheme matches Some(scheme) && (scheme@
            == "http"@ || scheme@ == "https"@)),
        judged matches Some(fault) ==> fault is NotHttp,
        unread matches Some(fault) && (fault matches EndpointFault::NotAUri(message) && message@
            == error@),
{
}

/// Each fault of an endpoint is told in words.
pub proof fn law_endpoint_faults_are_told(fault: EndpointFault, words: &'static str)
    requires
        call_ensures(EndpointFault::message, (&fault,), words),
    ensures
        fault is NotAUri ==> words@ == "OTEL_EXPORTER_OTLP_ENDPOINT is not a valid URI"@,
        fault is NotHttp ==> words@
            == "OTEL_EXPORTER_OTLP_ENDPOINT must be an http(s) OTLP/gRPC endpoint"@,
{
}

/// Traces are exported exactly where a good endpoint is set: none where it is not
/// set or blank, and a fault where it is no good.
pub proof fn law_export_endpoints(
    setting: Option<&str>,
    endpoint: &str,
    checked: Result<(), EndpointFault>,
    exported: Result<Option<String>, EndpointFault>,
)
    requires
        call_ensures(telemetry::check_export_endpoint, (endpoint,), checked),
        call_ensures(telemetry::export_endpoint, (setting,), exported),
    ensures
        setting is None ==> exported matches Ok(None),
        setting matches Some(word) ==> text::trimmed(word@).len() == 0 ==> exported matches Ok(
            None,
        ),
        setting matches Some(word) ==> text::trimmed(word@).len() > 0 && word@ == endpoint@ ==> {
            &&& checked is Ok ==> (exported matches Ok(Some(found)) && found@ == word@)
            &&& checked matches Err(fault) ==> (exported matches Err(named) && named@ == fault@)
        },
        outside::uri_of(endpoint@) is Err ==> checked is Err,
{
}

} // verus!
