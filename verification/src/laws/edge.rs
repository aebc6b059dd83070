//! What the edge operations are owed: which pages are fetched and from where,
//! and what each operation answers.
use vstd::prelude::*;
use crate::audit::SecurityEvent;
use crate::blocklist::BlocklistStats;
use crate::detection::{Decision, RequestMetadata};
use crate::edge;
use crate::edge::{FetchTarget, ScoreQuery};
use crate::ip;
use crate::ip::IpAddress;
use crate::json;
use crate::json::{Json, JsonView};
use crate::laws::answers::says;
use crate::outside;
use crate::outside::UrlParts;
use crate::reply::Reply;
use crate::text;

verus! {

/// The host is one of the domains, or lies below one.
pub open spec fn belongs_to(host: Seq<char>, domains: Seq<Seq<char>>) -> bool {
    exists|i: int| 0 <= i < domains.len() && lies_at_or_below(host, #[trigger] domains[i])
}

/// The host is the domain, or ends with it behind a dot, in whatever case.
pub open spec fn lies_at_or_below(host: Seq<char>, domain: Seq<char>) -> bool {
    text::lower(host) == text::lower(domain) || (seq!['.'] + text::lower(domain)).is_suffix_of(
        text::lower(host),
    )
}

/// A page is fetched exactly over HTTPS, or over HTTP where that is not asked
/// for, from a host that is not this machine: a public address, or a name in the
/// allowed domains, which is any name where none are listed.
pub proof fn law_only_allowed_pages_are_fetched(
    url: UrlParts,
    require_https: bool,
    allowed: &str,
    valid: bool,
)
    requires
        call_ensures(edge::valid_url, (&url, require_https, allowed), valid),
    ensures
        valid <==> (url.scheme@ == "https"@ || (url.scheme@ == "http"@ && !require_https)) && (
        url.host matches Some(host) && host@ != "localhost"@ && host@ != "127.0.0.1"@ && host@
            != "::1"@ && match ip::parsed_ip(host@) {
            Some(address) => ip::is_public(address),
            None => allowed@.len() == 0 || belongs_to(host@, text::listed(allowed@)),
        }),
{
    reveal_strlit(".");
    assert("."@ =~= seq!['.']);
    reveal_strlit("http");
    reveal_strlit("https");
    assert("http"@.len() == 4);
    assert("https"@.len() == 5);
    if let Some(host) = url.host {
        let domains = text::listed(allowed@);
        if edge::in_domains(host@, domains) {
            let i = choose|i: int|
                0 <= i < domains.len() && (text::same_ignoring_case(host@, #[trigger] domains[i])
                    || ("."@ + text::lower(domains[i])).is_suffix_of(text::lower(host@)));
            assert(lies_at_or_below(host@, domains[i]));
        }
        if belongs_to(host@, domains) {
            let i = choose|i: int|
                0 <= i < domains.len() && lies_at_or_below(host@, #[trigger] domains[i]);
            assert(text::same_ignoring_case(host@, domains[i]) || ("."@ + text::lower(
                domains[i],
            )).is_suffix_of(text::lower(host@)));
        }
    }
}

/// The rules for robots lie at the root of the host of a page that may be
/// fetched, on its own port.
pub proof fn law_robots_lie_at_the_root(
    url: UrlParts,
    allowed: &str,
    valid: bool,
    robots: Option<String>,
)
    requires
        call_ensures(edge::valid_url, (&url, false, allowed), valid),
        call_ensures(edge::robots_url_for, (&url, allowed), robots),
    ensures
        robots is Some <==> valid,
        valid && url.port is None ==> robots->0@ == url.scheme@ + "://"@ + url.host->0@
            + "/robots.txt"@,
        valid ==> (url.port matches Some(port) ==> robots->0@ == url.scheme@ + "://"@
            + url.host->0@ + ":"@ + text::decimal(port as nat) + "/robots.txt"@),
{
    if valid {
        let front = url.scheme@ + "://"@ + url.host->0@;
        assert(front + Seq::<char>::empty() =~= front);
        if let Some(port) = url.port {
            assert(front + (":"@ + text::decimal(port as nat)) + "/robots.txt"@ =~= front + ":"@
                + text::decimal(port as nat) + "/robots.txt"@);
        }
    }
}

/// A page is fetched from its host and port where it may be fetched; else the
/// fault is named.
pub proof fn law_fetches_go_to_the_host(
    url: UrlParts,
    require_https: bool,
    allowed: &str,
    valid: bool,
    target: Result<FetchTarget, String>,
)
    requires
        call_ensures(edge::valid_url, (&url, require_https, allowed), valid),
        call_ensures(edge::target_for, (&url, require_https, allowed), target),
    ensures
        target is Ok <==> valid && url.known_port is Some,
        target matches Ok(found) ==> found.host@ == url.host->0@ && found.port == url.known_port->0,
        !valid ==> (target matches Err(message) && message@ == "URL failed SSRF validation"@),
        valid && url.known_port is None ==> (target matches Err(message) && message@
            == "URL port is unknown"@),
{
}

/// A page named by a text is treated as the URL that the text is; what is no URL
/// is not fetched.
pub proof fn law_texts_are_read_as_urls(
    page: &str,
    url: UrlParts,
    require_https: bool,
    allowed: &str,
    valid: bool,
    robots: Option<String>,
    valid_text: bool,
    robots_text: Option<String>,
    target: Result<FetchTarget, String>,
    target_text: Result<FetchTarget, String>,
)
    requires
        call_ensures(edge::valid_url, (&url, require_https, allowed), valid),
        call_ensures(edge::robots_url_for, (&url, allowed), robots),
        call_ensures(edge::target_for, (&url, require_https, allowed), target),
        call_ensures(edge::valid_url_text, (page, require_https, allowed), valid_text),
        call_ensures(edge::robots_url, (page, allowed), robots_text),
        call_ensures(edge::fetch_target, (page, require_https, allowed), target_text),
    ensures
        outside::url_of(page@) == Ok::<outside::UrlView, Seq<char>>(url@) ==> {
            &&& valid_text == valid
            &&& text::opt_view(robots_text) == text::opt_view(robots)
            &&& target_text is Ok <==> target is Ok
            &&& target matches Ok(found) ==> target_text->Ok_0.host@ == found.host@
                && target_text->Ok_0.port == found.port
        },
        outside::url_of(page@) is Err ==> !valid_text && robots_text is None && target_text is Err,
{
}

/// A name is resolved to its first address, and only where every address that it
/// has is public.
pub proof fn law_names_resolve_to_public_addresses(
    addresses: Vec<IpAddress>,
    pinned: Result<IpAddress, String>,
)
    requires
        call_ensures(edge::pin_address, (&addresses,), pinned),
    ensures
        pinned is Ok <==> addresses@.len() > 0 && forall|i: int|
            0 <= i < addresses@.len() ==> ip::is_public((#[trigger] addresses@[i])@),
        pinned matches Ok(address) ==> address == addresses@[0],
        pinned matches Err(message) ==> message@ == "URL resolved to a non-public address"@,
{
}

/// A redirect is not followed, and an answer that is announced too large is not
/// read.
pub proof fn law_answers_are_checked(
    redirection: bool,
    length: Option<u64>,
    maximum: u64,
    verdict: Result<(), String>,
)
    requires
        call_ensures(edge::check_answer, (redirection, length, maximum), verdict),
    ensures
        verdict is Ok <==> !redirection && (length matches Some(announced) ==> announced
            <= maximum),
        redirection ==> (verdict matches Err(message) && message@ == "redirects are not followed"@),
        !redirection ==> (verdict matches Err(message) ==> message@
            == "upstream response exceeds EDGE_MAX_FETCH_BYTES"@),
{
}

/// What was fetched must be text.
pub proof fn law_fetched_pages_are_texts(
    body: Vec<u8>,
    page: Seq<char>,
    read: Result<String, String>,
)
    requires
        call_ensures(edge::fetched_text, (body,), read),
    ensures
        body@ == vstd::utf8::encode_utf8(page) ==> (read matches Ok(found) && found@ == page),
        !vstd::utf8::valid_utf8(body@) ==> (read matches Err(message) && message@
            == "upstream response is not UTF-8 text"@),
{
    vstd::utf8::encode_utf8_valid_utf8(page);
    vstd::utf8::encode_utf8_decode_utf8(page);
}

/// What tells these names apart.
proof fn lemma_fetch_names_differ()
    ensures
        "status"@.len() == 6,
        "url"@.len() == 3,
        "content"@.len() == 7,
        "message"@.len() == 7,
        "content"@[0] == 'c',
        "message"@[0] == 'm',
{
    reveal_strlit("status");
    reveal_strlit("url");
    reveal_strlit("content");
    reveal_strlit("message");
}

/// A fetched page is answered as it is; a failure is answered 502 with what went
/// wrong and the substitute.
pub proof fn law_fetches_are_answered(
    url: &str,
    fetched: Result<String, String>,
    substitute: &str,
    answer: Result<Json, Reply>,
)
    requires
        call_ensures(edge::fetch_answer, (url, &fetched, substitute), answer),
    ensures
        answer is Ok <==> fetched is Ok,
        fetched matches Ok(content) ==> says(answer->Ok_0@, "status"@, "success"@) && says(
            answer->Ok_0@,
            "url"@,
            url@,
        ) && says(answer->Ok_0@, "content"@, content@),
        fetched matches Err(message) ==> answer->Err_0.status == 502 && says(
            answer->Err_0.body@,
            "status"@,
            "error"@,
        ) && says(answer->Err_0.body@, "url"@, url@) && says(
            answer->Err_0.body@,
            "message"@,
            message@,
        ) && says(answer->Err_0.body@, "content"@, substitute@),
{
    lemma_fetch_names_differ();
}

/// Where no rules for robots are known, nothing is allowed.
pub proof fn law_unknown_robots_allow_nothing(rules: &'static str)
    requires
        call_ensures(edge::default_robots, (), rules),
    ensures
        rules@ == "User-agent: *\nDisallow: /"@,
{
}

/// What tells these names apart.
proof fn lemma_operation_names_differ()
    ensures
        "status"@.len() == 6,
        "rule_count"@.len() == 10,
        "provider"@.len() == 8,
        "paths"@.len() == 5,
        "upstream_status"@.len() == 15,
        "managed"@.len() == 7,
        "certificate_source"@.len() == 18,
        "blocked_count"@.len() == 13,
        "flagged_count"@.len() == 13,
        "mode"@.len() == 4,
        "score"@.len() == 5,
        "action"@.len() == 6,
        "reason"@.len() == 6,
        "status"@[0] == 's',
        "action"@[0] == 'a',
        "reason"@[0] == 'r',
        "paths"@[0] == 'p',
        "score"@[0] == 's',
        "blocked_count"@[0] == 'b',
        "flagged_count"@[0] == 'f',
{
    reveal_strlit("status");
    reveal_strlit("rule_count");
    reveal_strlit("provider");
    reveal_strlit("paths");
    reveal_strlit("upstream_status");
    reveal_strlit("managed");
    reveal_strlit("certificate_source");
    reveal_strlit("blocked_count");
    reveal_strlit("flagged_count");
    reveal_strlit("mode");
    reveal_strlit("score");
    reveal_strlit("action");
    reveal_strlit("reason");
}

/// Reloaded rules are counted in the answer and in the record.
pub proof fn law_rule_reloads_are_counted(rules: usize, answer: Json, event: SecurityEvent)
    requires
        call_ensures(edge::waf_answer, (rules,), answer),
        call_ensures(edge::record_waf_reload, (rules,), event),
    ensures
        says(answer@, "status"@, "queued"@),
        json::member(answer@, "rule_count"@) == Some(JsonView::Int(rules as int)),
        event@.event_type == "waf_rules_reload_requested"@,
        event@.actor == "edge-ops"@,
        json::member(event@.payload, "rule_count"@) == Some(JsonView::Int(rules as int)),
{
    lemma_operation_names_differ();
}

/// A purge names the paths, to whoever holds the cache, and is answered with what
/// became of it.
pub proof fn law_purges_name_their_paths(
    paths: Vec<String>,
    success: bool,
    status: u16,
    local: Json,
    request: Json,
    answer: Json,
)
    requires
        call_ensures(edge::local_purge_answer, (&paths,), local),
        call_ensures(edge::purge_request, (&paths,), request),
        call_ensures(edge::purge_answer, (success, status), answer),
    ensures
        says(local@, "status"@, "queued"@),
        says(local@, "provider"@, "local"@),
        json::member(local@, "paths"@) == Some(json::texts_view(text::views(paths@))),
        json::member(request@, "paths"@) == Some(json::texts_view(text::views(paths@))),
        success ==> says(answer@, "status"@, "success"@),
        !success ==> says(answer@, "status"@, "error"@),
        json::member(answer@, "upstream_status"@) == Some(JsonView::Int(status as int)),
{
    lemma_operation_names_differ();
}

/// The state of the edge is told as it is set and as it stands.
pub proof fn law_edge_states_are_told(
    managed: Option<&str>,
    source: Option<&str>,
    stats: BlocklistStats,
    mode: Option<&str>,
    tls: Json,
    ddos: Json,
)
    requires
        call_ensures(edge::tls_status, (managed, source), tls),
        call_ensures(edge::ddos_status, (stats, mode), ddos),
    ensures
        says(tls@, "status"@, "ok"@),
        managed matches Some(word) ==> says(tls@, "managed"@, word@),
        managed is None ==> says(tls@, "managed"@, "external"@),
        source matches Some(word) ==> says(tls@, "certificate_source"@, word@),
        source is None ==> says(tls@, "certificate_source"@, "deployment"@),
        says(ddos@, "status"@, "ok"@),
        json::member(ddos@, "blocked_count"@) == Some(JsonView::Int(stats.blocked_count as int)),
        json::member(ddos@, "flagged_count"@) == Some(JsonView::Int(stats.flagged_count as int)),
        mode matches Some(word) ==> says(ddos@, "mode"@, word@),
        mode is None ==> says(ddos@, "mode"@, "threshold"@),
{
    lemma_operation_names_differ();
}

/// A queried request is the one that the query describes.
pub proof fn law_queries_describe_a_request(query: ScoreQuery, metadata: RequestMetadata)
    requires
        call_ensures(edge::metadata_from_query, (&query,), metadata),
    ensures
        query.ip matches Some(ip) ==> metadata@.ip == Some(ip@),
        query.ip is None ==> metadata@.ip == Some("0.0.0.0"@),
        query.method matches Some(method) ==> metadata@.method == Some(method@),
        query.method is None ==> metadata@.method == Some("GET"@),
        query.path matches Some(path) ==> metadata@.path == Some(path@),
        query.path is None ==> metadata@.path == Some("/"@),
        query.user_agent matches Some(agent) ==> metadata@.user_agent == Some(agent@),
        query.user_agent is None ==> metadata@.user_agent == Some(Seq::<char>::empty()),
        metadata@.referer == text::opt_view(query.referer),
        query.accept matches Some(accept) ==> metadata@.headers == Some(
            seq![("accept"@, accept@)],
        ),
        query.accept is None ==> metadata@.headers == Some(
            Seq::<(Seq<char>, Seq<char>)>::empty(),
        ),
        metadata.status is None,
        metadata.bytes is None,
        metadata.timestamp is None,
        metadata.fingerprint_id is None,
        metadata.fingerprint_reuse_count is None,
        metadata.tls_ja3 is None,
        metadata.tls_ja4 is None,
        metadata.verified_bot is None,
{
}

/// A queried score is answered with the decision it leads to.
pub proof fn law_queried_scores_are_answered(decision: Decision, score: &str, answer: Json)
    requires
        call_ensures(edge::score_answer, (&decision, score), answer),
    ensures
        says(answer@, "status"@, "success"@),
        json::member(answer@, "score"@) == Some(JsonView::Decimal(score@)),
        says(answer@, "action"@, decision.action@),
        says(answer@, "reason"@, decision.reason@),
{
    lemma_operation_names_differ();
}

} // verus!
