//! Edge operations: which addresses may be fetched from, how much of an answer
//! is taken, and what the operations answer.
use vstd::prelude::*;
use crate::audit;
use crate::audit::{EventView, SecurityEvent};
use crate::blocklist::BlocklistStats;
use crate::detection;
use crate::detection::{Decision, MetadataView, RequestMetadata};
use crate::ip;
use crate::ip::IpAddress;
use crate::json;
use crate::json::{Json, JsonObject, JsonView};
use crate::outside;
use crate::outside::{UrlParts, UrlView};
use crate::reply;
use crate::reply::{Reply, ReplyView};
use crate::settings;
use crate::text;

verus! {

/// The host is one of the domains, or lies below one.
pub open spec fn in_domains(host: Seq<char>, domains: Seq<Seq<char>>) -> bool {
    exists|i: int|
        0 <= i < domains.len() && (text::same_ignoring_case(host, #[trigger] domains[i]) || ("."@
            + text::lower(domains[i])).is_suffix_of(text::lower(host)))
}

/// The host is allowed: every one is where no domains are configured.
pub open spec fn is_allowed_host(host: Seq<char>, allowed: Seq<char>) -> bool {
    allowed.len() == 0 || in_domains(host, text::listed(allowed))
}

/// The hosts that name this machine itself.
pub open spec fn is_local_name(host: Seq<char>) -> bool {
    host == "localhost"@ || host == "127.0.0.1"@ || host == "::1"@
}

/// The URL may be fetched: by HTTP or HTTPS, from a host that is neither this
/// machine nor a private address, and within the allowed domains.
pub open spec fn is_valid_url(url: UrlView, require_https: bool, allowed: Seq<char>) -> bool {
    &&& require_https ==> url.scheme == "https"@
    &&& url.scheme == "http"@ || url.scheme == "https"@
    &&& match url.host {
        Some(host) => !is_local_name(host) && match ip::parsed_ip(host) {
            Some(address) => ip::is_public(address),
            None => is_allowed_host(host, allowed),
        },
        None => false,
    }
}

/// The address of the robots file on the host of a URL.
pub open spec fn robots_address(url: UrlView) -> Seq<char> {
    url.scheme + "://"@ + url.host->0 + (match url.port {
        Some(port) => ":"@ + text::decimal(port as nat),
        None => Seq::empty(),
    }) + "/robots.txt"@
}

/// The robots file that belongs to a URL that may be fetched.
pub open spec fn robots_of(target: Seq<char>, allowed: Seq<char>) -> Option<Seq<char>> {
    match outside::url_of(target) {
        Ok(url) if is_valid_url(url, false, allowed) => Some(robots_address(url)),
        _ => None,
    }
}

/// Whether a host is one of the domains or lies below one.
fn host_in_domains(host: &str, domains: &Vec<String>) -> (r: bool)
    ensures
        r == in_domains(host@, text::views(domains@)),
{
    let ghost views = text::views(domains@);
    let lowered = text::to_lower(host);
    let mut i: usize = 0;
    while i < domains.len()
        invariant
            i <= domains@.len(),
            views == text::views(domains@),
            lowered@ == text::lower(host@),
            forall|j: int|
                0 <= j < i ==> !(text::same_ignoring_case(host@, #[trigger] views[j]) || ("."@
                    + text::lower(views[j])).is_suffix_of(text::lower(host@))),
        decreases domains@.len() - i,
    {
        assert(views[i as int] == domains@[i as int]@);
        let mut suffix = ".".to_string();
        suffix.append(text::to_lower(domains[i].as_str()).as_str());
        if text::eq_ignoring_case(host, domains[i].as_str()) || text::ends_with(
            lowered.as_str(),
            suffix.as_str(),
        ) {
            assert(text::same_ignoring_case(host@, views[i as int]) || ("."@ + text::lower(
                views[i as int],
            )).is_suffix_of(text::lower(host@)));
            return true;
        }
        i += 1;
    }
    false
}

/// Whether a URL may be fetched.
pub fn valid_url(url: &UrlParts, require_https: bool, allowed: &str) -> (r: bool)
    ensures
        r == is_valid_url(url@, require_https, allowed@),
{
    let scheme = url.scheme.as_str();
    if require_https && !text::text_eq(scheme, "https") {
        return false;
    }
    if !text::text_eq(scheme, "http") && !text::text_eq(scheme, "https") {
        return false;
    }
    let host = match &url.host {
        Some(name) => name.as_str(),
        None => {
            return false;
        },
    };
    if text::text_eq(host, "localhost") || text::text_eq(host, "127.0.0.1") || text::text_eq(
        host,
        "::1",
    ) {
        return false;
    }
    if let Some(address) = ip::parse_ip(host) {
        return ip::is_public_ip(&address);
    }
    if allowed.is_empty() {
        return true;
    }
    let domains = text::list_entries(allowed);
    host_in_domains(host, &domains)
}

/// Whether a text is a URL that may be fetched.
pub fn valid_url_text(target: &str, require_https: bool, allowed: &str) -> (r: bool)
    ensures
        r == (outside::url_of(target@) matches Ok(url) && is_valid_url(
            url,
            require_https,
            allowed@,
        )),
{
    match outside::parse_url(target) {
        Ok(url) => valid_url(&url, require_https, allowed),
        Err(_) => false,
    }
}

/// The robots file on the host of a URL that may be fetched.
pub fn robots_url_for(url: &UrlParts, allowed: &str) -> (r: Option<String>)
    ensures
        text::opt_view(r) == (if is_valid_url(url@, false, allowed@) {
            Some(robots_address(url@))
        } else {
            None
        }),
{
    if !valid_url(url, false, allowed) {
        return None;
    }
    match &url.host {
        Some(host) => {
            let mut out = url.scheme.clone();
            out.append("://");
            out.append(host.as_str());
            if let Some(port) = url.port {
                out.append(":");
                out.append(text::u64_text(port as u64).as_str());
            }
            out.append("/robots.txt");
            assert(out@ =~= robots_address(url@));
            Some(out)
        },
        None => None,
    }
}

/// The robots file that belongs to a URL.
pub fn robots_url(target: &str, allowed: &str) -> (r: Option<String>)
    ensures
        text::opt_view(r) == robots_of(target@, allowed@),
{
    match outside::parse_url(target) {
        Ok(url) => robots_url_for(&url, allowed),
        Err(_) => None,
    }
}

/// Where to connect to for a fetch.
#[derive(Debug)]
pub struct FetchTarget {
    pub host: String,
    pub port: u16,
}

/// Where to connect to for a fetch, or why not to.
pub open spec fn target_of(
    url: Result<UrlView, Seq<char>>,
    require_https: bool,
    allowed: Seq<char>,
) -> Result<(Seq<char>, u16), Seq<char>> {
    match url {
        Err(message) => Err(message),
        Ok(parts) => if !is_valid_url(parts, require_https, allowed) {
            Err("URL failed SSRF validation"@)
        } else {
            match parts.known_port {
                Some(port) => Ok((parts.host->0, port)),
                None => Err("URL port is unknown"@),
            }
        },
    }
}

/// Where to connect to for a fetch of a parsed URL, or why not to.
pub fn target_for(url: &UrlParts, require_https: bool, allowed: &str) -> (r: Result<
    FetchTarget,
    String,
>)
    ensures
        match r {
            Ok(target) => target_of(Ok(url@), require_https, allowed@) == Ok::<
                (Seq<char>, u16),
                Seq<char>,
            >((target.host@, target.port)),
            Err(message) => target_of(Ok(url@), require_https, allowed@) == Err::<
                (Seq<char>, u16),
                Seq<char>,
            >(message@),
        },
{
    if !valid_url(url, require_https, allowed) {
        return Err("URL failed SSRF validation".to_string());
    }
    match (&url.host, url.known_port) {
        (Some(host), Some(port)) => Ok(FetchTarget { host: host.clone(), port }),
        _ => Err("URL port is unknown".to_string()),
    }
}

/// Where to connect to for a fetch, or why not to.
pub fn fetch_target(target: &str, require_https: bool, allowed: &str) -> (r: Result<
    FetchTarget,
    String,
>)
    ensures
        match r {
            Ok(found) => target_of(outside::url_of(target@), require_https, allowed@) == Ok::<
                (Seq<char>, u16),
                Seq<char>,
            >((found.host@, found.port)),
            Err(message) => target_of(outside::url_of(target@), require_https, allowed@) == Err::<
                (Seq<char>, u16),
                Seq<char>,
            >(message@),
        },
{
    match outside::parse_url(target) {
        Ok(url) => target_for(&url, require_https, allowed),
        Err(message) => Err(message),
    }
}

/// The addresses are some, and all of them public.
pub open spec fn all_public(addresses: Seq<IpAddress>) -> bool {
    &&& addresses.len() > 0
    &&& forall|i: int| 0 <= i < addresses.len() ==> ip::is_public((#[trigger] addresses[i])@)
}

/// The address to connect to: the first one, if all that a name resolved to are public.
pub fn pin_address(addresses: &Vec<IpAddress>) -> (r: Result<IpAddress, String>)
    ensures
        match r {
            Ok(address) => all_public(addresses@) && address == addresses@[0],
            Err(message) => !all_public(addresses@) && message@
                == "URL resolved to a non-public address"@,
        },
{
    if addresses.len() == 0 {
        return Err("URL resolved to a non-public address".to_string());
    }
    let mut i: usize = 0;
    while i < addresses.len()
        invariant
            i <= addresses@.len(),
            forall|j: int| 0 <= j < i ==> ip::is_public((#[trigger] addresses@[j])@),
        decreases addresses@.len() - i,
    {
        if !ip::is_public_ip(&addresses[i]) {
            assert(!ip::is_public(addresses@[i as int]@));
            return Err("URL resolved to a non-public address".to_string());
        }
        i += 1;
    }
    Ok(addresses[0])
}

/// What keeps an answer from being read.
pub open spec fn answer_fault(redirection: bool, length: Option<u64>, maximum: u64) -> Option<
    Seq<char>,
> {
    if redirection {
        Some("redirects are not followed"@)
    } else if length is Some && length->0 > maximum {
        Some("upstream response exceeds EDGE_MAX_FETCH_BYTES"@)
    } else {
        None
    }
}

/// What keeps an answer from being read, by its status and announced length.
pub fn check_answer(redirection: bool, length: Option<u64>, maximum: u64) -> (r: Result<(), String>)
    ensures
        match r {
            Ok(_) => answer_fault(redirection, length, maximum) is None,
            Err(message) => answer_fault(redirection, length, maximum) == Some(message@),
        },
{
    if redirection {
        return Err("redirects are not followed".to_string());
    }
    if let Some(announced) = length {
        if announced > maximum {
            return Err("upstream response exceeds EDGE_MAX_FETCH_BYTES".to_string());
        }
    }
    Ok(())
}

/// Adds a chunk to a body that may grow to a maximum; says whether it fit.
pub fn append_chunk(body: &mut Vec<u8>, chunk: &[u8], maximum: u64) -> (r: bool)
    ensures
        r == (old(body)@.len() + chunk@.len() <= maximum),
        final(body)@ == (if r {
            old(body)@ + chunk@
        } else {
            old(body)@
        }),
{
    let have: usize = body.len();
    let more: usize = chunk.len();
    if have as u64 > maximum || more as u64 > maximum - have as u64 {
        return false;
    }
    let ghost before = body@;
    let mut i: usize = 0;
    assert(body@ =~= before + chunk@.take(0));
    while i < chunk.len()
        invariant
            i <= chunk@.len(),
            body@ == before + chunk@.take(i as int),
        decreases chunk@.len() - i,
    {
        body.push(chunk[i]);
        i += 1;
        assert(body@ =~= before + chunk@.take(i as int));
    }
    assert(chunk@.take(i as int) =~= chunk@);
    true
}

/// The text of a fetched body.
pub fn fetched_text(body: Vec<u8>) -> (r: Result<String, String>)
    ensures
        match r {
            Ok(s) => vstd::utf8::valid_utf8(body@) && s@ == vstd::utf8::decode_utf8(body@),
            Err(message) => !vstd::utf8::valid_utf8(body@) && message@
                == "upstream response is not UTF-8 text"@,
        },
{
    match outside::utf8_text(body) {
        Some(s) => Ok(s),
        None => Err("upstream response is not UTF-8 text".to_string()),
    }
}

/// The robots file that shuts everyone out.
pub fn default_robots() -> (r: &'static str)
    ensures
        r@ == "User-agent: *\nDisallow: /"@,
{
    "User-agent: *\nDisallow: /"
}

/// The answer to a fetch: the content, or why there is none with a substitute.
pub open spec fn fetch_outcome(
    url: Seq<char>,
    fetched: Result<Seq<char>, Seq<char>>,
    substitute: Seq<char>,
) -> Result<JsonView, ReplyView> {
    match fetched {
        Ok(content) => Ok(
            JsonView::Object(
                map![
                    "status"@ => JsonView::Text("success"@),
                    "url"@ => JsonView::Text(url),
                    "content"@ => JsonView::Text(content),
                ],
            ),
        ),
        Err(message) => Err(
            ReplyView {
                status: reply::BAD_GATEWAY,
                body: JsonView::Object(
                    map![
                        "status"@ => JsonView::Text("error"@),
                        "url"@ => JsonView::Text(url),
                        "message"@ => JsonView::Text(message),
                        "content"@ => JsonView::Text(substitute),
                    ],
                ),
            },
        ),
    }
}

/// The meaning of a fetch.
pub open spec fn fetched_view(fetched: Result<String, String>) -> Result<Seq<char>, Seq<char>> {
    match fetched {
        Ok(content) => Ok(content@),
        Err(message) => Err(message@),
    }
}

/// The answer to a fetch.
pub fn fetch_answer(url: &str, fetched: &Result<String, String>, substitute: &str) -> (r: Result<
    Json,
    Reply,
>)
    ensures
        reply::outcome(r) == fetch_outcome(url@, fetched_view(*fetched), substitute@),
{
    match fetched {
        Ok(content) => {
            let mut body = JsonObject::new();
            body.put("status", json::text_value("success"));
            body.put("url", json::text_value(url));
            body.put("content", json::text_value(content.as_str()));
            Ok(Json::Object(body))
        },
        Err(message) => {
            let mut body = JsonObject::new();
            body.put("status", json::text_value("error"));
            body.put("url", json::text_value(url));
            body.put("message", json::text_value(message.as_str()));
            body.put("content", json::text_value(substitute));
            Err(Reply { status: reply::BAD_GATEWAY, body: Json::Object(body) })
        },
    }
}

/// The document of a reload of so many rules.
pub fn waf_answer(rule_count: usize) -> (r: Json)
    ensures
        r@ == JsonView::Object(
            map![
                "status"@ => JsonView::Text("queued"@),
                "rule_count"@ => JsonView::Int(rule_count as int),
            ],
        ),
{
    let mut body = JsonObject::new();
    body.put("status", json::text_value("queued"));
    body.put("rule_count", Json::Unsigned(rule_count as u64));
    Json::Object(body)
}

/// The event that records a reload of so many rules.
pub fn record_waf_reload(rule_count: usize) -> (r: SecurityEvent)
    ensures
        r@ == (EventView {
            event_type: "waf_rules_reload_requested"@,
            actor: "edge-ops"@,
            payload: JsonView::Object(map!["rule_count"@ => JsonView::Int(rule_count as int)]),
        }),
{
    let mut payload = JsonObject::new();
    payload.put("rule_count", Json::Unsigned(rule_count as u64));
    audit::event("waf_rules_reload_requested", "edge-ops", Json::Object(payload))
}

/// The answer to a purge where no CDN is configured.
pub fn local_purge_answer(paths: &Vec<String>) -> (r: Json)
    ensures
        r@ == JsonView::Object(
            map![
                "status"@ => JsonView::Text("queued"@),
                "provider"@ => JsonView::Text("local"@),
                "paths"@ => json::texts_view(text::views(paths@)),
            ],
        ),
{
    let mut body = JsonObject::new();
    body.put("status", json::text_value("queued"));
    body.put("provider", json::text_value("local"));
    body.put("paths", json::text_array(paths));
    Json::Object(body)
}

/// The document that asks the CDN for a purge.
pub fn purge_request(paths: &Vec<String>) -> (r: Json)
    ensures
        r@ == JsonView::Object(map!["paths"@ => json::texts_view(text::views(paths@))]),
{
    let mut body = JsonObject::new();
    body.put("paths", json::text_array(paths));
    Json::Object(body)
}

/// The answer to a purge that the CDN answered.
pub fn purge_answer(success: bool, status: u16) -> (r: Json)
    ensures
        r@ == JsonView::Object(
            map![
                "status"@ => JsonView::Text(if success { "success"@ } else { "error"@ }),
                "upstream_status"@ => JsonView::Int(status as int),
            ],
        ),
{
    let mut body = JsonObject::new();
    body.put(
        "status",
        json::text_value(
            if success {
                "success"
            } else {
                "error"
            },
        ),
    );
    body.put("upstream_status", Json::Unsigned(status as u64));
    Json::Object(body)
}

/// How TLS is managed.
pub fn tls_status(managed: Option<&str>, source: Option<&str>) -> (r: Json)
    ensures
        r@ == JsonView::Object(
            map![
                "status"@ => JsonView::Text("ok"@),
                "managed"@ => JsonView::Text(
                    settings::string_setting(text::opt_str_view(managed), "external"@),
                ),
                "certificate_source"@ => JsonView::Text(
                    settings::string_setting(text::opt_str_view(source), "deployment"@),
                ),
            ],
        ),
{
    let mut body = JsonObject::new();
    body.put("status", json::text_value("ok"));
    body.put("managed", json::text_value(settings::env_string(managed, "external").as_str()));
    body.put(
        "certificate_source",
        json::text_value(settings::env_string(source, "deployment").as_str()),
    );
    Json::Object(body)
}

/// How much is blocked and flagged.
pub fn ddos_status(stats: BlocklistStats, mode: Option<&str>) -> (r: Json)
    ensures
        r@ == JsonView::Object(
            map![
                "status"@ => JsonView::Text("ok"@),
                "blocked_count"@ => JsonView::Int(stats.blocked_count as int),
                "flagged_count"@ => JsonView::Int(stats.flagged_count as int),
                "mode"@ => JsonView::Text(
                    settings::string_setting(text::opt_str_view(mode), "threshold"@),
                ),
            ],
        ),
{
    let mut body = JsonObject::new();
    body.put("status", json::text_value("ok"));
    body.put("blocked_count", Json::Unsigned(stats.blocked_count as u64));
    body.put("flagged_count", Json::Unsigned(stats.flagged_count as u64));
    body.put("mode", json::text_value(settings::env_string(mode, "threshold").as_str()));
    Json::Object(body)
}

/// The request that a scoring query describes.
#[derive(Debug)]
pub struct ScoreQuery {
    pub ip: Option<String>,
    pub method: Option<String>,
    pub path: Option<String>,
    pub user_agent: Option<String>,
    pub referer: Option<String>,
    pub accept: Option<String>,
}

/// The request that a scoring query describes.
pub open spec fn query_request(
    ip: Option<Seq<char>>,
    method: Option<Seq<char>>,
    path: Option<Seq<char>>,
    user_agent: Option<Seq<char>>,
    referer: Option<Seq<char>>,
    accept: Option<Seq<char>>,
) -> MetadataView {
    MetadataView {
        ip: Some(settings::string_setting(ip, "0.0.0.0"@)),
        method: Some(settings::string_setting(method, "GET"@)),
        path: Some(settings::string_setting(path, "/"@)),
        user_agent: Some(settings::string_setting(user_agent, Seq::empty())),
        referer,
        headers: Some(
            match accept {
                Some(value) => seq![("accept"@, value)],
                None => Seq::empty(),
            },
        ),
        ..detection::unknown_request()
    }
}

/// The request that a scoring query describes.
pub fn metadata_from_query(query: &ScoreQuery) -> (r: RequestMetadata)
    ensures
        r@ == query_request(
            text::opt_view(query.ip),
            text::opt_view(query.method),
            text::opt_view(query.path),
            text::opt_view(query.user_agent),
            text::opt_view(query.referer),
            text::opt_view(query.accept),
        ),
{
    proof {
        reveal_strlit("");
        assert(""@ =~= Seq::<char>::empty());
    }
    let mut headers: Vec<(String, String)> = Vec::new();
    if let Some(value) = &query.accept {
        headers.push(("accept".to_string(), value.clone()));
    }
    let ghost pairs = match text::opt_view(query.accept) {
        Some(value) => seq![("accept"@, value)],
        None => Seq::<(Seq<char>, Seq<char>)>::empty(),
    };
    assert(detection::pairs_view(headers@) =~= pairs);
    let unknown: RequestMetadata = Default::default();
    RequestMetadata {
        ip: Some(settings::env_string(text::borrowed(&query.ip), "0.0.0.0")),
        method: Some(settings::env_string(text::borrowed(&query.method), "GET")),
        path: Some(settings::env_string(text::borrowed(&query.path), "/")),
        user_agent: Some(settings::env_string(text::borrowed(&query.user_agent), "")),
        referer: text::owned(text::borrowed(&query.referer)),
        headers: Some(headers),
        ..unknown
    }
}

/// The answer to a scoring query; the score is given as its text.
pub fn score_answer(decision: &Decision, score: &str) -> (r: Json)
    ensures
        r@ == JsonView::Object(
            map![
                "status"@ => JsonView::Text("success"@),
                "score"@ => JsonView::Decimal(score@),
                "action"@ => JsonView::Text(decision@.action),
                "reason"@ => JsonView::Text(decision@.reason),
            ],
        ),
{
    let mut body = JsonObject::new();
    body.put("status", json::text_value("success"));
    body.put("score", Json::Decimal(score.to_string()));
    body.put("action", json::text_value(decision.action.as_str()));
    body.put("reason", json::text_value(decision.reason.as_str()));
    Json::Object(body)
}

/// A URL whose host is written as an address may be fetched only if the address
/// is public, whatever domains are allowed. An IPv6 address in brackets is judged
/// as what its host resolves to.
pub proof fn law_private_addresses_are_never_fetched(
    url: UrlView,
    require_https: bool,
    allowed: Seq<char>,
)
    requires
        url.host matches Some(host) && ip::parsed_ip(host) matches Some(address)
            && !ip::is_public(address),
    ensures
        !is_valid_url(url, require_https, allowed),
{
}

/// A domain does not allow a host that merely ends with the same letters.
pub proof fn law_lookalike_hosts_are_refused(host: Seq<char>, domain: Seq<char>)
    requires
        !text::same_ignoring_case(host, domain),
        host.len() <= domain.len() || text::lower(host)[host.len() - domain.len() - 1] != '.',
    ensures
        !in_domains(host, seq![domain]),
{
    reveal_strlit(".");
    let suffix = "."@ + text::lower(domain);
    assert(suffix.len() == domain.len() + 1);
    assert(suffix[0] == '.');
    if suffix.is_suffix_of(text::lower(host)) {
        let at = text::lower(host).len() - suffix.len();
        assert(text::lower(host).subrange(at, text::lower(host).len() as int)[0] == suffix[0]);
        assert(text::lower(host)[at] == '.');
    }
    assert(seq![domain][0] == domain);
}

/// Where HTTPS is required, every URL that may be fetched is one of HTTPS, and
/// requiring it never allows more.
pub proof fn law_https_requirement(url: UrlView, allowed: Seq<char>)
    ensures
        is_valid_url(url, true, allowed) ==> url.scheme == "https"@ && is_valid_url(
            url,
            false,
            allowed,
        ),
{
}

} // verus!
