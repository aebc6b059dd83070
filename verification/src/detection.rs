//! Detection: the features of a request, its fingerprint, the heuristic score
//! and the action that a score leads to.
use vstd::prelude::*;
use crate::outside;
use crate::settings;
use crate::text;
use crate::tls;

verus! {

/// A request as the detector sees it. A field that is not known is absent.
#[derive(Debug)]
pub struct RequestMetadata {
    pub ip: Option<String>,
    pub path: Option<String>,
    pub method: Option<String>,
    pub user_agent: Option<String>,
    pub referer: Option<String>,
    pub status: Option<u16>,
    pub bytes: Option<u64>,
    /// Seconds since 1970.
    pub timestamp: Option<i64>,
    pub headers: Option<Vec<(String, String)>>,
    pub fingerprint_id: Option<String>,
    pub fingerprint_reuse_count: Option<u64>,
    /// Validated JA3 value supplied by a trusted TLS collector or CDN adapter.
    pub tls_ja3: Option<String>,
    /// Validated canonical JA4 value supplied by a trusted TLS collector or CDN adapter.
    pub tls_ja4: Option<String>,
    pub tls_fingerprint_source: Option<String>,
    /// Set only after forward-confirmed reverse DNS or equivalent provider verification.
    pub verified_bot: Option<bool>,
}

/// What the detector sees of a request.
pub ghost struct MetadataView {
    pub ip: Option<Seq<char>>,
    pub path: Option<Seq<char>>,
    pub method: Option<Seq<char>>,
    pub user_agent: Option<Seq<char>>,
    pub referer: Option<Seq<char>>,
    pub status: Option<u16>,
    pub bytes: Option<u64>,
    pub timestamp: Option<i64>,
    pub headers: Option<Seq<(Seq<char>, Seq<char>)>>,
    pub fingerprint_id: Option<Seq<char>>,
    pub fingerprint_reuse_count: Option<u64>,
    pub tls_ja3: Option<Seq<char>>,
    pub tls_ja4: Option<Seq<char>>,
    pub tls_fingerprint_source: Option<Seq<char>>,
    pub verified_bot: Option<bool>,
}

/// The texts of a list of pairs.
pub open spec fn pairs_view(pairs: Seq<(String, String)>) -> Seq<(Seq<char>, Seq<char>)> {
    pairs.map_values(|pair: (String, String)| (pair.0@, pair.1@))
}

impl View for RequestMetadata {
    type V = MetadataView;

    open spec fn view(&self) -> MetadataView {
        MetadataView {
            ip: text::opt_view(self.ip),
            path: text::opt_view(self.path),
            method: text::opt_view(self.method),
            user_agent: text::opt_view(self.user_agent),
            referer: text::opt_view(self.referer),
            status: self.status,
            bytes: self.bytes,
            timestamp: self.timestamp,
            headers: match self.headers {
                Some(pairs) => Some(pairs_view(pairs@)),
                None => None,
            },
            fingerprint_id: text::opt_view(self.fingerprint_id),
            fingerprint_reuse_count: self.fingerprint_reuse_count,
            tls_ja3: text::opt_view(self.tls_ja3),
            tls_ja4: text::opt_view(self.tls_ja4),
            tls_fingerprint_source: text::opt_view(self.tls_fingerprint_source),
            verified_bot: self.verified_bot,
        }
    }
}

/// A request of which nothing is known.
pub open spec fn unknown_request() -> MetadataView {
    MetadataView {
        ip: None,
        path: None,
        method: None,
        user_agent: None,
        referer: None,
        status: None,
        bytes: None,
        timestamp: None,
        headers: None,
        fingerprint_id: None,
        fingerprint_reuse_count: None,
        tls_ja3: None,
        tls_ja4: None,
        tls_fingerprint_source: None,
        verified_bot: None,
    }
}

impl Default for RequestMetadata {
    fn default() -> (r: RequestMetadata)
        ensures
            r@ == unknown_request(),
    {
        RequestMetadata {
            ip: None,
            path: None,
            method: None,
            user_agent: None,
            referer: None,
            status: None,
            bytes: None,
            timestamp: None,
            headers: None,
            fingerprint_id: None,
            fingerprint_reuse_count: None,
            tls_ja3: None,
            tls_ja4: None,
            tls_fingerprint_source: None,
            verified_bot: None,
        }
    }
}

/// How often a client asked before, and how many nanoseconds ago it last did.
#[derive(Debug, Clone, Copy)]
pub struct FrequencyFeatures {
    pub count: u64,
    pub time_since: Option<i128>,
}

impl Default for FrequencyFeatures {
    fn default() -> (r: FrequencyFeatures)
        ensures
            r == (FrequencyFeatures { count: 0, time_since: None }),
    {
        FrequencyFeatures { count: 0, time_since: None }
    }
}

/// What the detector takes from a request.
#[derive(Debug)]
pub struct ExtractedFeatures {
    pub country_code: String,
    pub ua_length: usize,
    pub status_code: u16,
    pub bytes_sent: u64,
    pub http_method: String,
    pub path_depth: usize,
    pub path_length: usize,
    pub path_is_root: u8,
    pub path_has_docs: u8,
    pub path_is_wp: u8,
    pub path_disallowed: u8,
    pub ua_is_known_bad: u8,
    pub ua_is_known_benign_crawler: u8,
    pub ua_is_empty: u8,
    pub ua_library_is_bot: u8,
    pub referer_is_empty: u8,
    pub referer_has_domain: u8,
    pub hour_of_day: i32,
    pub day_of_week: i32,
    pub request_frequency: u64,
    /// Nanoseconds; absent where the client has not asked before.
    pub time_since_last: Option<i128>,
    pub fingerprint_reuse_count: u64,
}

/// The features of a request.
pub ghost struct FeaturesView {
    pub country_code: Seq<char>,
    pub ua_length: nat,
    pub status_code: u16,
    pub bytes_sent: u64,
    pub http_method: Seq<char>,
    pub path_depth: nat,
    pub path_length: nat,
    pub path_is_root: u8,
    pub path_has_docs: u8,
    pub path_is_wp: u8,
    pub path_disallowed: u8,
    pub ua_is_known_bad: u8,
    pub ua_is_known_benign_crawler: u8,
    pub ua_is_empty: u8,
    pub ua_library_is_bot: u8,
    pub referer_is_empty: u8,
    pub referer_has_domain: u8,
    pub hour_of_day: int,
    pub day_of_week: int,
    pub request_frequency: u64,
    pub time_since_last: Option<i128>,
    pub fingerprint_reuse_count: u64,
}

impl View for ExtractedFeatures {
    type V = FeaturesView;

    open spec fn view(&self) -> FeaturesView {
        FeaturesView {
            country_code: self.country_code@,
            ua_length: self.ua_length as nat,
            status_code: self.status_code,
            bytes_sent: self.bytes_sent,
            http_method: self.http_method@,
            path_depth: self.path_depth as nat,
            path_length: self.path_length as nat,
            path_is_root: self.path_is_root,
            path_has_docs: self.path_has_docs,
            path_is_wp: self.path_is_wp,
            path_disallowed: self.path_disallowed,
            ua_is_known_bad: self.ua_is_known_bad,
            ua_is_known_benign_crawler: self.ua_is_known_benign_crawler,
            ua_is_empty: self.ua_is_empty,
            ua_library_is_bot: self.ua_library_is_bot,
            referer_is_empty: self.referer_is_empty,
            referer_has_domain: self.referer_has_domain,
            hour_of_day: self.hour_of_day as int,
            day_of_week: self.day_of_week as int,
            request_frequency: self.request_frequency,
            time_since_last: self.time_since_last,
            fingerprint_reuse_count: self.fingerprint_reuse_count,
        }
    }
}

/// Parts of user agents that unwanted clients have.
pub open spec fn known_bad_agents() -> Seq<Seq<char>> {
    seq![
        "python-requests"@,
        "scrapy"@,
        "curl"@,
        "wget"@,
        "httpclient"@,
        "masscan"@,
        "nikto"@,
        "sqlmap"@,
        "bot"@,
        "crawler"@,
    ]
}

/// Parts of user agents that welcome crawlers have.
pub open spec fn known_benign_crawlers() -> Seq<Seq<char>> {
    seq!["googlebot"@, "bingbot"@, "duckduckbot"@, "slurp"@, "applebot"@]
}

/// Paths below which nothing is meant for visitors.
pub open spec fn disallowed_paths() -> Seq<Seq<char>> {
    seq!["/admin"@, "/internal"@, "/.env"@, "/wp-admin"@, "/xmlrpc.php"@]
}

/// The path is the other one, or lies below it.
pub open spec fn is_at_or_below(path: Seq<char>, root: Seq<char>) -> bool {
    path == root || (root + "/"@).is_prefix_of(path)
}

/// The path is a disallowed one, or lies below one.
pub open spec fn is_disallowed(path: Seq<char>) -> bool {
    exists|i: int|
        0 <= i < disallowed_paths().len() && is_at_or_below(path, #[trigger] disallowed_paths()[i])
}

/// One for true, zero for false.
pub open spec fn bit(b: bool) -> u8 {
    if b {
        1
    } else {
        0
    }
}

/// The hour of a moment in UTC.
pub open spec fn hour_of(seconds: int) -> int {
    (seconds % 86_400) / 3_600
}

/// The day of a moment in UTC, with zero for Monday; the count started on a Thursday.
pub open spec fn weekday_of(seconds: int) -> int {
    (seconds / 86_400 + 3) % 7
}

/// The features of a request, where an unknown moment is the given one.
pub open spec fn features_of(
    request: MetadataView,
    freq: FrequencyFeatures,
    now: int,
) -> FeaturesView {
    let agent = tls::or_empty(request.user_agent);
    let folded = text::lower(agent);
    let path = tls::or_empty(request.path);
    let referer = tls::or_empty(request.referer);
    let moment = match request.timestamp {
        Some(seconds) => seconds as int,
        None => now,
    };
    FeaturesView {
        country_code: Seq::empty(),
        ua_length: text::byte_len(agent),
        status_code: match request.status {
            Some(status) => status,
            None => 0,
        },
        bytes_sent: match request.bytes {
            Some(bytes) => bytes,
            None => 0,
        },
        http_method: match request.method {
            Some(method) => method,
            None => "UNKNOWN"@,
        },
        path_depth: text::count_of(path, '/'),
        path_length: text::byte_len(path),
        path_is_root: bit(path == "/"@),
        path_has_docs: bit(text::occurs("/docs"@, path)),
        path_is_wp: bit(text::occurs("/wp-"@, path) || text::occurs("/xmlrpc.php"@, path)),
        path_disallowed: bit(is_disallowed(path)),
        ua_is_known_bad: bit(text::mentions_any(folded, known_bad_agents())),
        ua_is_known_benign_crawler: bit(
            request.verified_bot == Some(true) && text::mentions_any(
                folded,
                known_benign_crawlers(),
            ),
        ),
        ua_is_empty: bit(agent.len() == 0),
        ua_library_is_bot: bit(text::occurs("bot"@, folded) || text::occurs("crawler"@, folded)),
        referer_is_empty: bit(referer.len() == 0),
        referer_has_domain: bit(
            text::occurs("://"@, referer) && text::pieces(referer, '/').len() >= 3,
        ),
        hour_of_day: hour_of(moment),
        day_of_week: weekday_of(moment),
        request_frequency: freq.count,
        time_since_last: freq.time_since,
        fingerprint_reuse_count: match request.fingerprint_reuse_count {
            Some(count) => count,
            None => 1,
        },
    }
}

/// The value of the first header with this name, in lower case, or nothing.
pub open spec fn header_of(headers: Seq<(Seq<char>, Seq<char>)>, name: Seq<char>) -> Seq<char>
    decreases headers.len(),
{
    if headers.len() == 0 {
        Seq::empty()
    } else if text::same_ignoring_case(headers[0].0, name) {
        text::lower(headers[0].1)
    } else {
        header_of(headers.drop_first(), name)
    }
}

/// What a browser fingerprint is taken of.
pub open spec fn fingerprint_parts(request: MetadataView) -> Seq<Seq<char>> {
    let headers = match request.headers {
        Some(pairs) => pairs,
        None => Seq::empty(),
    };
    seq![
        text::lower(tls::or_empty(request.user_agent)),
        header_of(headers, "accept-language"@),
        header_of(headers, "accept"@),
        header_of(headers, "sec-ch-ua"@),
        header_of(headers, "sec-fetch-site"@),
        tls::or_empty(tls::ja3_of(request.tls_ja3)),
        tls::or_empty(tls::ja4_of(request.tls_ja4)),
    ]
}

/// The fingerprint of a client: the one it came with, else the hash of its parts.
pub open spec fn fingerprint_of(request: MetadataView) -> Seq<char> {
    match request.fingerprint_id {
        Some(id) if id.len() > 0 => id,
        _ => outside::hex_text(
            outside::sha256_of(
                vstd::utf8::encode_utf8(text::joined(fingerprint_parts(request), "|"@)),
            )@,
        ),
    }
}

/// The client asked again within a quarter of a second.
pub open spec fn is_rapid(time_since: Option<i128>) -> bool {
    match time_since {
        Some(nanoseconds) => 0 <= nanoseconds < 250_000_000,
        None => false,
    }
}

/// The smaller of two numbers.
pub open spec fn smaller(a: int, b: int) -> int {
    if a <= b {
        a
    } else {
        b
    }
}

/// What each feature adds to the score, in hundredths.
pub open spec fn terms_of(features: FeaturesView) -> Seq<int> {
    seq![
        5,
        30 * features.ua_is_known_bad,
        18 * features.ua_is_empty,
        12 * features.path_disallowed,
        10 * features.path_is_wp,
        6 * features.referer_is_empty,
        smaller(features.request_frequency as int, 18),
        if is_rapid(features.time_since_last) {
            10
        } else {
            0
        },
        if features.fingerprint_reuse_count > 5 {
            10
        } else {
            0
        },
        if features.ua_is_known_benign_crawler == 1 {
            -25
        } else {
            0
        },
    ]
}

/// The sum of the numbers.
pub open spec fn sum_of(terms: Seq<int>) -> int
    decreases terms.len(),
{
    if terms.len() == 0 {
        0
    } else {
        sum_of(terms.drop_last()) + terms.last()
    }
}

/// The heuristic score in hundredths, from zero to one hundred.
pub open spec fn score_of(features: FeaturesView) -> int {
    let sum = sum_of(terms_of(features));
    if sum < 0 {
        0
    } else if sum > 100 {
        100
    } else {
        sum
    }
}

/// Every yes-or-no feature is zero or one.
pub open spec fn are_bits(features: FeaturesView) -> bool {
    &&& features.ua_is_known_bad <= 1
    &&& features.ua_is_empty <= 1
    &&& features.path_disallowed <= 1
    &&& features.path_is_wp <= 1
    &&& features.referer_is_empty <= 1
    &&& features.ua_is_known_benign_crawler <= 1
    &&& features.ua_library_is_bot <= 1
}

/// Where a score stands against the three thresholds.
#[derive(Debug, Clone, Copy)]
pub struct Standing {
    pub at_block: bool,
    pub at_tarpit: bool,
    pub at_throttle: bool,
}

/// The action that a standing leads to.
pub open spec fn action_of(standing: Standing) -> Seq<char> {
    if standing.at_block {
        "block_ip"@
    } else if standing.at_tarpit {
        "tarpit"@
    } else if standing.at_throttle {
        "throttle"@
    } else {
        "allow"@
    }
}

/// The reason that names the detector and its score.
pub open spec fn reason_of(trained: bool, score: Seq<char>) -> Seq<char> {
    (if trained {
        "Trained logistic-regression model"@
    } else {
        "Heuristic"@
    }) + " score "@ + score
}

/// What is decided of a request.
#[derive(Debug)]
pub struct Decision {
    pub is_bot: bool,
    pub action: String,
    pub reason: String,
    pub fingerprint: String,
    pub tls_ja3: Option<String>,
    pub tls_ja4: Option<String>,
    pub tls_fingerprint_source: Option<String>,
    pub features: ExtractedFeatures,
}

/// What is decided of a request.
pub ghost struct DecisionView {
    pub is_bot: bool,
    pub action: Seq<char>,
    pub reason: Seq<char>,
    pub fingerprint: Seq<char>,
    pub tls_ja3: Option<Seq<char>>,
    pub tls_ja4: Option<Seq<char>>,
    pub tls_fingerprint_source: Option<Seq<char>>,
    pub features: FeaturesView,
}

impl View for Decision {
    type V = DecisionView;

    open spec fn view(&self) -> DecisionView {
        DecisionView {
            is_bot: self.is_bot,
            action: self.action@,
            reason: self.reason@,
            fingerprint: self.fingerprint@,
            tls_ja3: text::opt_view(self.tls_ja3),
            tls_ja4: text::opt_view(self.tls_ja4),
            tls_fingerprint_source: text::opt_view(self.tls_fingerprint_source),
            features: self.features@,
        }
    }
}

/// The decision on a request whose score has this standing. A source counts
/// only beside a valid fingerprint.
pub open spec fn decision_of(
    request: MetadataView,
    features: FeaturesView,
    trained: bool,
    score: Seq<char>,
    standing: Standing,
) -> DecisionView {
    let tls_ja3 = tls::ja3_of(request.tls_ja3);
    let tls_ja4 = tls::ja4_of(request.tls_ja4);
    DecisionView {
        is_bot: standing.at_throttle,
        action: action_of(standing),
        reason: reason_of(trained, score),
        fingerprint: fingerprint_of(request),
        tls_ja3,
        tls_ja4,
        tls_fingerprint_source: if tls_ja3 is Some || tls_ja4 is Some {
            request.tls_fingerprint_source
        } else {
            None
        },
        features,
    }
}

/// The decimal notation of hundredths.
pub open spec fn hundredths_text(n: nat) -> Seq<char> {
    text::decimal(n / 100) + "."@ + seq![
        text::digit_char((n / 10 % 10) as int),
        text::digit_char((n % 10) as int),
    ]
}

/// The heuristic decision on a request whose score has this standing.
pub open spec fn heuristic_decision(
    request: MetadataView,
    freq: FrequencyFeatures,
    standing: Standing,
    now: int,
) -> DecisionView {
    let features = features_of(request, freq, now);
    decision_of(request, features, false, hundredths_text(score_of(features) as nat), standing)
}

/// One for true, zero for false.
fn one_if(b: bool) -> (r: u8)
    ensures
        r == bit(b),
{
    if b {
        1
    } else {
        0
    }
}

/// Whether nothing below a path is meant for visitors.
pub fn is_disallowed_path(path: &str) -> (r: bool)
    ensures
        r == is_disallowed(path@),
{
    let roots = ["/admin", "/internal", "/.env", "/wp-admin", "/xmlrpc.php"];
    let ghost views = disallowed_paths();
    assert(text::str_views(roots@) =~= views);
    let mut i: usize = 0;
    while i < 5
        invariant
            i <= 5,
            views == disallowed_paths(),
            roots@.len() == 5,
            text::str_views(roots@) == views,
            forall|j: int| 0 <= j < i ==> !is_at_or_below(path@, #[trigger] views[j]),
        decreases 5 - i,
    {
        assert(text::str_views(roots@)[i as int] == roots@[i as int]@);
        let mut below = roots[i].to_string();
        below.append("/");
        if text::text_eq(path, roots[i]) || text::starts_with(path, below.as_str()) {
            assert(is_at_or_below(path@, views[i as int]));
            return true;
        }
        i += 1;
    }
    false
}

/// The hour of a moment in UTC.
fn hour(seconds: i64) -> (r: i32)
    ensures
        r == hour_of(seconds as int),
{
    let of_day: u64 = if seconds >= 0 {
        (seconds as u64) % 86_400
    } else {
        let past: u64 = (-(seconds + 1)) as u64;
        86_399 - past % 86_400
    };
    assert(of_day == seconds as int % 86_400);
    (of_day / 3_600) as i32
}

/// The day of a moment in UTC, with zero for Monday.
fn weekday(seconds: i64) -> (r: i32)
    ensures
        r == weekday_of(seconds as int),
{
    if seconds >= 0 {
        let days: u64 = (seconds as u64) / 86_400;
        ((days + 3) % 7) as i32
    } else {
        let past: u64 = (-(seconds + 1)) as u64;
        let days: u64 = past / 86_400 + 1;
        assert(seconds as int / 86_400 == -(days as int));
        let back: u64 = days % 7;
        assert((-(days as int) + 3) % 7 == (10 - back) % 7);
        ((10 - back) % 7) as i32
    }
}

/// Whether a user agent in lower case is that of an unwanted client.
fn is_known_bad(agent: &str) -> (r: bool)
    ensures
        r == text::mentions_any(agent@, known_bad_agents()),
{
    let bad = [
        "python-requests",
        "scrapy",
        "curl",
        "wget",
        "httpclient",
        "masscan",
        "nikto",
        "sqlmap",
        "bot",
        "crawler",
    ];
    assert(text::str_views(bad@) =~= known_bad_agents());
    text::mentions(agent, bad.as_slice())
}

/// Whether either part stands in a text.
fn mentions_either(s: &str, a: &str, b: &str) -> (r: bool)
    ensures
        r == (text::occurs(a@, s@) || text::occurs(b@, s@)),
{
    text::contains(s, a) || text::contains(s, b)
}

/// Whether a user agent in lower case is that of a welcome crawler, and verified.
fn is_known_benign(agent: &str, verified: bool) -> (r: bool)
    ensures
        r == (verified && text::mentions_any(agent@, known_benign_crawlers())),
{
    let benign = ["googlebot", "bingbot", "duckduckbot", "slurp", "applebot"];
    assert(text::str_views(benign@) =~= known_benign_crawlers());
    verified && text::mentions(agent, benign.as_slice())
}

/// Whether a referer names a domain.
fn has_domain(referer: &str) -> (r: bool)
    ensures
        r == (text::occurs("://"@, referer@) && text::pieces(referer@, '/').len() >= 3),
{
    let parts = text::split_on(referer, '/');
    assert(text::views(parts@).len() == parts@.len());
    text::contains(referer, "://") && parts.len() >= 3
}

/// The features of a request, where an unknown moment is the given one.
pub fn extract_features_at(
    metadata: &RequestMetadata,
    freq: FrequencyFeatures,
    now: i64,
) -> (r: ExtractedFeatures)
    ensures
        r@ == features_of(metadata@, freq, now as int),
        are_bits(r@),
{
    proof {
        reveal_strlit("");
        assert(""@ =~= Seq::<char>::empty());
    }
    let ua = text::borrowed(&metadata.user_agent).unwrap_or("");
    let ua_lower = text::to_lower(ua);
    let folded = ua_lower.as_str();
    let path = text::borrowed(&metadata.path).unwrap_or("");
    let referer = text::borrowed(&metadata.referer).unwrap_or("");
    let timestamp = metadata.timestamp.unwrap_or(now);
    let verified = metadata.verified_bot.unwrap_or(false);
    let r = ExtractedFeatures {
        country_code: String::new(),
        ua_length: text::byte_count(ua),
        status_code: metadata.status.unwrap_or(0),
        bytes_sent: metadata.bytes.unwrap_or(0),
        http_method: settings::env_string(text::borrowed(&metadata.method), "UNKNOWN"),
        path_depth: text::count_char(path, '/'),
        path_length: text::byte_count(path),
        path_is_root: one_if(text::text_eq(path, "/")),
        path_has_docs: one_if(text::contains(path, "/docs")),
        path_is_wp: one_if(mentions_either(path, "/wp-", "/xmlrpc.php")),
        path_disallowed: one_if(is_disallowed_path(path)),
        ua_is_known_bad: one_if(is_known_bad(folded)),
        ua_is_known_benign_crawler: one_if(is_known_benign(folded, verified)),
        ua_is_empty: one_if(ua.is_empty()),
        ua_library_is_bot: one_if(mentions_either(folded, "bot", "crawler")),
        referer_is_empty: one_if(referer.is_empty()),
        referer_has_domain: one_if(has_domain(referer)),
        hour_of_day: hour(timestamp),
        day_of_week: weekday(timestamp),
        request_frequency: freq.count,
        time_since_last: freq.time_since,
        fingerprint_reuse_count: metadata.fingerprint_reuse_count.unwrap_or(1),
    };
    assert(r@.country_code =~= Seq::<char>::empty());
    r
}

/// The features of a request.
pub fn extract_features(metadata: &RequestMetadata, freq: FrequencyFeatures) -> (r:
    ExtractedFeatures)
    ensures
        exists|now: i64| r@ == #[trigger] features_of(metadata@, freq, now as int),
        metadata.timestamp is Some ==> r@ == features_of(metadata@, freq, 0),
        are_bits(r@),
{
    let now = outside::now_seconds();
    extract_features_at(metadata, freq, now)
}

/// The value of the first header with this name, in lower case, or nothing.
pub fn header(headers: &Vec<(String, String)>, name: &str) -> (r: String)
    ensures
        r@ == header_of(pairs_view(headers@), name@),
{
    let ghost pairs = pairs_view(headers@);
    let mut i: usize = 0;
    assert(pairs.skip(0) =~= pairs);
    while i < headers.len()
        invariant
            i <= headers@.len(),
            pairs == pairs_view(headers@),
            header_of(pairs, name@) == header_of(pairs.skip(i as int), name@),
        decreases headers@.len() - i,
    {
        let ghost rest = pairs.skip(i as int);
        assert(rest[0] == (headers@[i as int].0@, headers@[i as int].1@));
        assert(rest.drop_first() =~= pairs.skip(i + 1));
        if text::eq_ignoring_case(headers[i].0.as_str(), name) {
            return text::to_lower(headers[i].1.as_str());
        }
        i += 1;
    }
    String::new()
}

/// The text, or nothing.
fn text_or_empty(value: Option<String>) -> (r: String)
    ensures
        r@ == tls::or_empty(text::opt_view(value)),
{
    match value {
        Some(s) => s,
        None => String::new(),
    }
}

/// The fingerprint of a client.
pub fn browser_fingerprint(metadata: &RequestMetadata) -> (r: String)
    ensures
        r@ == fingerprint_of(metadata@),
{
    if let Some(id) = &metadata.fingerprint_id {
        if !id.as_str().is_empty() {
            return id.clone();
        }
    }
    proof {
        reveal_strlit("");
        assert(""@ =~= Seq::<char>::empty());
    }
    let none: Vec<(String, String)> = Vec::new();
    assert(pairs_view(none@) =~= Seq::empty());
    let headers = match &metadata.headers {
        Some(pairs) => pairs,
        None => &none,
    };
    let mut parts: Vec<String> = Vec::new();
    parts.push(text::to_lower(text::borrowed(&metadata.user_agent).unwrap_or("")));
    parts.push(header(headers, "accept-language"));
    parts.push(header(headers, "accept"));
    parts.push(header(headers, "sec-ch-ua"));
    parts.push(header(headers, "sec-fetch-site"));
    parts.push(text_or_empty(tls::normalize_ja3(text::borrowed(&metadata.tls_ja3))));
    parts.push(text_or_empty(tls::normalize_ja4(text::borrowed(&metadata.tls_ja4))));
    assert(text::views(parts@) =~= fingerprint_parts(metadata@));
    let raw = text::join(&parts, "|");
    let digest = outside::sha256(raw.as_str().as_bytes());
    outside::hex_encode(digest.as_slice())
}

/// The numbers as integers.
pub open spec fn ints(terms: Seq<i32>) -> Seq<int> {
    terms.map_values(|term: i32| term as int)
}

/// What each feature adds to the score, in hundredths, in the order of addition.
pub fn score_terms(features: &ExtractedFeatures) -> (r: Vec<i32>)
    ensures
        ints(r@) == terms_of(features@),
{
    let frequency: i32 = if features.request_frequency <= 18 {
        features.request_frequency as i32
    } else {
        18
    };
    let rapid = match features.time_since_last {
        Some(nanoseconds) => 0 <= nanoseconds && nanoseconds < 250_000_000,
        None => false,
    };
    let mut out: Vec<i32> = Vec::new();
    out.push(5);
    out.push(30 * features.ua_is_known_bad as i32);
    out.push(18 * features.ua_is_empty as i32);
    out.push(12 * features.path_disallowed as i32);
    out.push(10 * features.path_is_wp as i32);
    out.push(6 * features.referer_is_empty as i32);
    out.push(frequency);
    out.push(
        if rapid {
            10
        } else {
            0
        },
    );
    out.push(
        if features.fingerprint_reuse_count > 5 {
            10
        } else {
            0
        },
    );
    out.push(
        if features.ua_is_known_benign_crawler == 1 {
            -25
        } else {
            0
        },
    );
    assert(ints(out@) =~= terms_of(features@));
    out
}

/// The heuristic score in hundredths.
pub fn score(features: &ExtractedFeatures) -> (r: u32)
    ensures
        r == score_of(features@),
        r <= 100,
{
    let terms = score_terms(features);
    let ghost all = terms_of(features@);
    let mut sum: i32 = 0;
    let mut i: usize = 0;
    assert(terms@.len() == ints(terms@).len());
    assert forall|k: int| 0 <= k < all.len() implies -25 <= #[trigger] all[k] <= 7_650 by {
        assert(ints(terms@)[k] == all[k]);
    }
    while i < terms.len()
        invariant
            i <= terms@.len() == 10,
            all == ints(terms@),
            forall|k: int| 0 <= k < all.len() ==> -25 <= #[trigger] all[k] <= 7_650,
            sum == sum_of(all.take(i as int)),
            -25 * i <= sum <= 7_650 * i,
        decreases terms@.len() - i,
    {
        assert(all.take(i + 1).drop_last() =~= all.take(i as int));
        assert(all.take(i + 1).last() == terms@[i as int]);
        assert(all[i as int] == terms@[i as int]);
        sum = sum + terms[i];
        i += 1;
    }
    assert(all.take(i as int) =~= all);
    if sum < 0 {
        0
    } else if sum > 100 {
        100
    } else {
        sum as u32
    }
}

/// The action that a standing leads to.
pub fn action_for(standing: Standing) -> (r: String)
    ensures
        r@ == action_of(standing),
{
    if standing.at_block {
        "block_ip".to_string()
    } else if standing.at_tarpit {
        "tarpit".to_string()
    } else if standing.at_throttle {
        "throttle".to_string()
    } else {
        "allow".to_string()
    }
}

/// The decision on a request whose score has this standing. Where the score that
/// the detector gives the features stands against the thresholds is measured
/// outside, by floating-point numbers.
pub fn decide_with_model(
    metadata: &RequestMetadata,
    freq: FrequencyFeatures,
    now: i64,
    trained: bool,
    score_text: &str,
    standing: Standing,
) -> (r: Decision)
    ensures
        r@ == decision_of(
            metadata@,
            features_of(metadata@, freq, now as int),
            trained,
            score_text@,
            standing,
        ),
{
    let features = extract_features_at(metadata, freq, now);
    let tls_ja3 = tls::normalize_ja3(text::borrowed(&metadata.tls_ja3));
    let tls_ja4 = tls::normalize_ja4(text::borrowed(&metadata.tls_ja4));
    let tls_fingerprint_source = if tls_ja3.is_some() || tls_ja4.is_some() {
        text::owned(text::borrowed(&metadata.tls_fingerprint_source))
    } else {
        None
    };
    let reason = reason_text(trained, score_text);
    Decision {
        is_bot: standing.at_throttle,
        action: action_for(standing),
        reason,
        fingerprint: browser_fingerprint(metadata),
        tls_ja3,
        tls_ja4,
        tls_fingerprint_source,
        features,
    }
}

/// The reason that names the detector and its score.
pub fn reason_text(trained: bool, score: &str) -> (r: String)
    ensures
        r@ == reason_of(trained, score@),
{
    let mut reason = if trained {
        "Trained logistic-regression model".to_string()
    } else {
        "Heuristic".to_string()
    };
    reason.append(" score ");
    reason.append(score);
    reason
}

/// The decimal notation of hundredths.
pub fn hundredths_string(n: u32) -> (r: String)
    ensures
        r@ == hundredths_text(n as nat),
{
    let mut out = text::u64_text((n / 100) as u64);
    out.append(".");
    let ghost front = out@;
    out.push((((n / 10 % 10) as u8) + 48) as char);
    out.push((((n % 10) as u8) + 48) as char);
    assert(out@ =~= front + seq![
        text::digit_char((n / 10 % 10) as int),
        text::digit_char((n % 10) as int),
    ]);
    out
}

/// The heuristic decision on a request. Where its score stands against the
/// thresholds is measured outside, by floating-point numbers.
pub fn decide(
    metadata: &RequestMetadata,
    freq: FrequencyFeatures,
    standing: Standing,
    now: i64,
) -> (r: Decision)
    ensures
        r@ == heuristic_decision(metadata@, freq, standing, now as int),
{
    let features = extract_features_at(metadata, freq, now);
    let score_text = hundredths_string(score(&features));
    decide_with_model(metadata, freq, now, false, score_text.as_str(), standing)
}

/// A score always lies between zero and one hundred.
pub proof fn law_score_is_bounded(features: FeaturesView)
    ensures
        0 <= score_of(features) <= 100,
{
}

/// Claiming to be a welcome crawler lowers nothing without verification.
pub proof fn law_unverified_crawler_gains_nothing(
    request: MetadataView,
    freq: FrequencyFeatures,
    now: int,
)
    requires
        request.verified_bot != Some(true),
    ensures
        features_of(request, freq, now).ua_is_known_benign_crawler == 0,
        terms_of(features_of(request, freq, now))[9] == 0,
{
}

/// The sum of ten terms.
pub proof fn lemma_sum_of_ten(t: Seq<int>)
    requires
        t.len() == 10,
    ensures
        sum_of(t) == t[0] + t[1] + t[2] + t[3] + t[4] + t[5] + t[6] + t[7] + t[8] + t[9],
{
    reveal_with_fuel(sum_of, 11);
    let a = t.drop_last();
    let b = a.drop_last();
    let c = b.drop_last();
    let d = c.drop_last();
    let e = d.drop_last();
    let f = e.drop_last();
    let g = f.drop_last();
    let h = g.drop_last();
    let i = h.drop_last();
    assert(i.drop_last().len() == 0);
    assert(sum_of(i) == t[0]);
    assert(sum_of(h) == t[0] + t[1]);
    assert(sum_of(g) == t[0] + t[1] + t[2]);
    assert(sum_of(f) == t[0] + t[1] + t[2] + t[3]);
    assert(sum_of(e) == t[0] + t[1] + t[2] + t[3] + t[4]);
    assert(sum_of(d) == t[0] + t[1] + t[2] + t[3] + t[4] + t[5]);
    assert(sum_of(c) == t[0] + t[1] + t[2] + t[3] + t[4] + t[5] + t[6]);
    assert(sum_of(b) == t[0] + t[1] + t[2] + t[3] + t[4] + t[5] + t[6] + t[7]);
    assert(sum_of(a) == t[0] + t[1] + t[2] + t[3] + t[4] + t[5] + t[6] + t[7] + t[8]);
}

/// Asking more often never lowers the score.
pub proof fn law_frequency_never_lowers_the_score(features: FeaturesView, more: u64)
    requires
        features.request_frequency <= more,
    ensures
        score_of(features) <= score_of(FeaturesView { request_frequency: more, ..features }),
{
    let other = FeaturesView { request_frequency: more, ..features };
    lemma_sum_of_ten(terms_of(features));
    lemma_sum_of_ten(terms_of(other));
}

/// How strict an action is.
pub open spec fn strictness(action: Seq<char>) -> int {
    if action == "block_ip"@ {
        3
    } else if action == "tarpit"@ {
        2
    } else if action == "throttle"@ {
        1
    } else {
        0
    }
}

/// A score that reaches every threshold that another one reaches is never
/// answered more mildly.
pub proof fn law_actions_escalate(lower: Standing, higher: Standing)
    requires
        lower.at_block ==> higher.at_block,
        lower.at_tarpit ==> higher.at_tarpit,
        lower.at_throttle ==> higher.at_throttle,
    ensures
        strictness(action_of(lower)) <= strictness(action_of(higher)),
{
    reveal_strlit("block_ip");
    reveal_strlit("tarpit");
    reveal_strlit("throttle");
    reveal_strlit("allow");
    assert("block_ip"@[0] == 'b');
    assert("tarpit"@.len() == 6);
    assert("throttle"@[0] == 't');
    assert("throttle"@.len() == 8);
    assert("allow"@.len() == 5);
}

/// A malformed TLS fingerprint is as good as none: it changes neither the
/// identity nor what is reported.
pub proof fn law_malformed_fingerprints_are_discarded(
    request: MetadataView,
    features: FeaturesView,
    trained: bool,
    score: Seq<char>,
    standing: Standing,
)
    requires
        tls::ja3_of(request.tls_ja3) is None,
        tls::ja4_of(request.tls_ja4) is None,
    ensures
        ({
            let decision = decision_of(request, features, trained, score, standing);
            let bare = MetadataView {
                tls_ja3: None,
                tls_ja4: None,
                tls_fingerprint_source: None,
                ..request
            };
            decision == decision_of(bare, features, trained, score, standing)
        }),
{
    let bare = MetadataView {
        tls_ja3: None,
        tls_ja4: None,
        tls_fingerprint_source: None,
        ..request
    };
    assert(fingerprint_parts(request) =~= fingerprint_parts(bare));
}

} // verus!
