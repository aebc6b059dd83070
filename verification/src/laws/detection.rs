//! What a detection decision is owed: which requests are suspicious, what each
//! sign of it weighs, and which action a standing leads to.
use vstd::prelude::*;
use crate::detection;
use crate::detection::{Decision, ExtractedFeatures, FrequencyFeatures, RequestMetadata, Standing};
use crate::model;
use crate::model::TrainedLinearModel;
use crate::outside;
use crate::text;
use crate::text_laws;
use crate::tls;

verus! {

/// What tells these names apart.
proof fn lemma_actions_differ()
    ensures
        "block_ip"@.len() == 8,
        "tarpit"@.len() == 6,
        "throttle"@.len() == 8,
        "allow"@.len() == 5,
        "block_ip"@[0] == 'b',
        "throttle"@[0] == 't',
{
    reveal_strlit("block_ip");
    reveal_strlit("tarpit");
    reveal_strlit("throttle");
    reveal_strlit("allow");
}

/// The action names the highest threshold that a score reaches, and only a
/// score below all of them is allowed.
pub proof fn law_actions_name_the_highest_threshold(standing: Standing, action: String)
    requires
        call_ensures(detection::action_for, (standing,), action),
    ensures
        standing.at_block ==> action@ == "block_ip"@,
        !standing.at_block && standing.at_tarpit ==> action@ == "tarpit"@,
        !standing.at_block && !standing.at_tarpit && standing.at_throttle ==> action@
            == "throttle"@,
        action@ == "allow"@ <==> !standing.at_block && !standing.at_tarpit
            && !standing.at_throttle,
        detection::strictness(action@) == (if standing.at_block {
            3int
        } else if standing.at_tarpit {
            2int
        } else if standing.at_throttle {
            1int
        } else {
            0int
        }),
{
    lemma_actions_differ();
}

/// A decision calls exactly those requests bots that it does not allow, where
/// the thresholds lie in order, and reaching the throttle threshold is enough.
pub proof fn law_bots_are_never_allowed(
    metadata: RequestMetadata,
    freq: FrequencyFeatures,
    standing: Standing,
    now: i64,
    decision: Decision,
)
    requires
        call_ensures(detection::decide, (&metadata, freq, standing, now), decision),
        standing.at_block ==> standing.at_tarpit,
        standing.at_tarpit ==> standing.at_throttle,
    ensures
        decision.is_bot <==> decision.action@ != "allow"@,
        decision.is_bot <==> standing.at_throttle,
        decision.action@ == "block_ip"@ <==> standing.at_block,
        decision.action@ == "tarpit"@ <==> standing.at_tarpit && !standing.at_block,
        decision.action@ == "throttle"@ <==> standing.at_throttle && !standing.at_tarpit,
{
    lemma_actions_differ();
}

/// A trained model and the heuristics decide alike: the action and the verdict
/// depend on the standing alone, whatever the request.
pub proof fn law_standing_alone_decides(
    metadata: RequestMetadata,
    freq: FrequencyFeatures,
    standing: Standing,
    now: i64,
    score: &str,
    trained: Decision,
    other: RequestMetadata,
    heuristic: Decision,
)
    requires
        call_ensures(
            detection::decide_with_model,
            (&metadata, freq, now, true, score, standing),
            trained,
        ),
        call_ensures(detection::decide, (&other, freq, standing, now), heuristic),
    ensures
        trained.is_bot == heuristic.is_bot,
        trained.action@ == heuristic.action@,
        trained.is_bot == standing.at_throttle,
        standing.at_block ==> trained.action@ == "block_ip"@,
        !standing.at_block && standing.at_tarpit ==> trained.action@ == "tarpit"@,
        !standing.at_block && !standing.at_tarpit && standing.at_throttle ==> trained.action@
            == "throttle"@,
        !standing.at_block && !standing.at_tarpit && !standing.at_throttle ==> trained.action@
            == "allow"@,
{
}

/// A decision reports what its parts found: the features, the fingerprint and
/// the normal forms of the TLS values that the request shows, with their source
/// only beside one of them, and the score that it was given.
pub proof fn law_decisions_report_what_was_found(
    metadata: RequestMetadata,
    freq: FrequencyFeatures,
    now: i64,
    trained: bool,
    score: &str,
    standing: Standing,
    decision: Decision,
    features: ExtractedFeatures,
    fingerprint: String,
    shown_ja3: Option<&str>,
    shown_ja4: Option<&str>,
    ja3: Option<String>,
    ja4: Option<String>,
)
    requires
        call_ensures(
            detection::decide_with_model,
            (&metadata, freq, now, trained, score, standing),
            decision,
        ),
        call_ensures(detection::extract_features_at, (&metadata, freq, now), features),
        call_ensures(detection::browser_fingerprint, (&metadata,), fingerprint),
        text::opt_str_view(shown_ja3) == metadata@.tls_ja3,
        text::opt_str_view(shown_ja4) == metadata@.tls_ja4,
        call_ensures(tls::normalize_ja3, (shown_ja3,), ja3),
        call_ensures(tls::normalize_ja4, (shown_ja4,), ja4),
    ensures
        decision.features@ == features@,
        decision.fingerprint@ == fingerprint@,
        text::opt_view(decision.tls_ja3) == text::opt_view(ja3),
        text::opt_view(decision.tls_ja4) == text::opt_view(ja4),
        ja3 is None && ja4 is None ==> decision.tls_fingerprint_source is None,
        ja3 is Some || ja4 is Some ==> text::opt_view(decision.tls_fingerprint_source)
            == text::opt_view(metadata.tls_fingerprint_source),
        trained ==> decision.reason@ == "Trained logistic-regression model score "@ + score@,
        !trained ==> decision.reason@ == "Heuristic score "@ + score@,
{
    reveal_strlit("Trained logistic-regression model score ");
    reveal_strlit("Trained logistic-regression model");
    reveal_strlit("Heuristic score ");
    reveal_strlit("Heuristic");
    reveal_strlit(" score ");
    assert("Trained logistic-regression model"@ + " score "@
        =~= "Trained logistic-regression model score "@);
    assert("Heuristic"@ + " score "@ =~= "Heuristic score "@);
}

/// The heuristic decision reports its own score, in decimal notation.
pub proof fn law_heuristic_reason_gives_the_score(
    metadata: RequestMetadata,
    freq: FrequencyFeatures,
    standing: Standing,
    now: i64,
    decision: Decision,
    features: ExtractedFeatures,
    score: u32,
    written: String,
)
    requires
        call_ensures(detection::decide, (&metadata, freq, standing, now), decision),
        call_ensures(detection::extract_features_at, (&metadata, freq, now), features),
        call_ensures(detection::score, (&features,), score),
        call_ensures(detection::hundredths_string, (score,), written),
    ensures
        decision.reason@ == "Heuristic score "@ + written@,
        decision.features@ == features@,
{
    reveal_strlit("Heuristic score ");
    reveal_strlit("Heuristic");
    reveal_strlit(" score ");
    assert("Heuristic"@ + " score "@ =~= "Heuristic score "@);
}

/// Hundredths are written as whole units, a point and exactly two digits.
pub proof fn law_hundredths_read_back(n: u32, written: String)
    requires
        call_ensures(detection::hundredths_string, (n,), written),
    ensures
        ({
            let point = written@.len() - 3;
            &&& point >= 1
            &&& written@[point] == '.'
            &&& text::is_digits(written@.take(point))
            &&& text::digits_value(written@.take(point)) == n / 100
            &&& text::is_digits(written@.skip(point + 1))
            &&& text::digits_value(written@.skip(point + 1)) == n % 100
        }),
{
    reveal_strlit(".");
    let whole = (n / 100) as nat;
    text_laws::lemma_decimal_digits(whole);
    let tens = text::digit_char((n as nat / 10 % 10) as int);
    let ones = text::digit_char((n as nat % 10) as int);
    let point = written@.len() - 3;
    assert(written@.take(point) =~= text::decimal(whole));
    let rest = written@.skip(point + 1);
    assert(rest =~= seq![tens, ones]);
    assert(rest.drop_last() =~= seq![tens]);
    assert(rest.drop_last().drop_last() =~= Seq::<char>::empty());
    reveal_with_fuel(text::digits_value, 3);
    assert(tens as int - 48 == n / 10 % 10);
    assert(ones as int - 48 == n % 10);
}

/// Each sign of automation has its weight: the score in hundredths is five, 30
/// for a known bad agent, 18 for an empty one, 12 for a disallowed path, 10 for
/// a WordPress path, 6 for a missing referer, one for each earlier request up to
/// 18, 10 for a rapid repeat, 10 for a fingerprint seen more than five times,
/// less 25 for a verified crawler, kept between zero and one hundred.
#[verifier::spinoff_prover]
pub proof fn law_each_sign_has_its_weight(features: ExtractedFeatures, score: u32)
    requires
        call_ensures(detection::score, (&features,), score),
        detection::are_bits(features@),
    ensures
        ({
            let sum: int = 5 + (if features.ua_is_known_bad == 1 {
                30int
            } else {
                0int
            }) + (if features.ua_is_empty == 1 {
                18int
            } else {
                0int
            }) + (if features.path_disallowed == 1 {
                12int
            } else {
                0int
            }) + (if features.path_is_wp == 1 {
                10int
            } else {
                0int
            }) + (if features.referer_is_empty == 1 {
                6int
            } else {
                0int
            }) + (if features.request_frequency < 18 {
                features.request_frequency as int
            } else {
                18int
            }) + (if features.time_since_last is Some && 0 <= features.time_since_last->0
                && features.time_since_last->0 < 250_000_000 {
                10int
            } else {
                0int
            }) + (if features.fingerprint_reuse_count > 5 {
                10int
            } else {
                0int
            }) - (if features.ua_is_known_benign_crawler == 1 {
                25int
            } else {
                0int
            });
            &&& 0 <= sum <= 100 ==> score == sum
            &&& sum < 0 ==> score == 0
            &&& sum > 100 ==> score == 100
        }),
{
    let t = detection::terms_of(features@);
    detection::lemma_sum_of_ten(t);
    assert(t[1] == (if features.ua_is_known_bad == 1 {
        30int
    } else {
        0int
    }));
    assert(t[2] == (if features.ua_is_empty == 1 {
        18int
    } else {
        0int
    }));
    assert(t[3] == (if features.path_disallowed == 1 {
        12int
    } else {
        0int
    }));
    assert(t[4] == (if features.path_is_wp == 1 {
        10int
    } else {
        0int
    }));
    assert(t[5] == (if features.referer_is_empty == 1 {
        6int
    } else {
        0int
    }));
}

/// A sign of automation never lowers the score: of two requests that differ in
/// one flag alone, the flagged one scores no less.
pub proof fn law_signs_never_lower_the_score(
    features: ExtractedFeatures,
    score: u32,
    flagged: ExtractedFeatures,
    flagged_score: u32,
)
    requires
        call_ensures(detection::score, (&features,), score),
        call_ensures(detection::score, (&flagged,), flagged_score),
        detection::are_bits(features@),
        detection::are_bits(flagged@),
        features.ua_is_known_bad <= flagged.ua_is_known_bad,
        features.ua_is_empty <= flagged.ua_is_empty,
        features.path_disallowed <= flagged.path_disallowed,
        features.path_is_wp <= flagged.path_is_wp,
        features.referer_is_empty <= flagged.referer_is_empty,
        features.request_frequency <= flagged.request_frequency,
        features.time_since_last == flagged.time_since_last,
        features.fingerprint_reuse_count <= flagged.fingerprint_reuse_count,
        features.ua_is_known_benign_crawler >= flagged.ua_is_known_benign_crawler,
    ensures
        score <= flagged_score,
{
    detection::lemma_sum_of_ten(detection::terms_of(features@));
    detection::lemma_sum_of_ten(detection::terms_of(flagged@));
}

/// Only what lies at or below one of the guarded paths is disallowed, and
/// everything there is.
pub proof fn law_guarded_paths_are_disallowed(path: &str, disallowed: bool)
    requires
        call_ensures(detection::is_disallowed_path, (path,), disallowed),
    ensures
        disallowed <==> {
            ||| path@ == "/admin"@
            ||| path@ == "/internal"@
            ||| path@ == "/.env"@
            ||| path@ == "/wp-admin"@
            ||| path@ == "/xmlrpc.php"@
            ||| "/admin/"@.is_prefix_of(path@)
            ||| "/internal/"@.is_prefix_of(path@)
            ||| "/.env/"@.is_prefix_of(path@)
            ||| "/wp-admin/"@.is_prefix_of(path@)
            ||| "/xmlrpc.php/"@.is_prefix_of(path@)
        },
{
    lemma_guarded_paths(path@);
}

/// The disallowed paths, written out.
proof fn lemma_guarded_paths(path: Seq<char>)
    ensures
        detection::is_disallowed(path) <==> {
            ||| path == "/admin"@
            ||| path == "/internal"@
            ||| path == "/.env"@
            ||| path == "/wp-admin"@
            ||| path == "/xmlrpc.php"@
            ||| "/admin/"@.is_prefix_of(path)
            ||| "/internal/"@.is_prefix_of(path)
            ||| "/.env/"@.is_prefix_of(path)
            ||| "/wp-admin/"@.is_prefix_of(path)
            ||| "/xmlrpc.php/"@.is_prefix_of(path)
        },
{
    reveal_strlit("/");
    reveal_strlit("/admin");
    reveal_strlit("/internal");
    reveal_strlit("/.env");
    reveal_strlit("/wp-admin");
    reveal_strlit("/xmlrpc.php");
    reveal_strlit("/admin/");
    reveal_strlit("/internal/");
    reveal_strlit("/.env/");
    reveal_strlit("/wp-admin/");
    reveal_strlit("/xmlrpc.php/");
    assert("/admin"@ + "/"@ =~= "/admin/"@);
    assert("/internal"@ + "/"@ =~= "/internal/"@);
    assert("/.env"@ + "/"@ =~= "/.env/"@);
    assert("/wp-admin"@ + "/"@ =~= "/wp-admin/"@);
    assert("/xmlrpc.php"@ + "/"@ =~= "/xmlrpc.php/"@);
    let roots = detection::disallowed_paths();
    assert(roots[0] == "/admin"@);
    assert(roots[1] == "/internal"@);
    assert(roots[2] == "/.env"@);
    assert(roots[3] == "/wp-admin"@);
    assert(roots[4] == "/xmlrpc.php"@);
    assert(detection::is_at_or_below(path, roots[0]) ==> detection::is_disallowed(path));
    assert(detection::is_at_or_below(path, roots[1]) ==> detection::is_disallowed(path));
    assert(detection::is_at_or_below(path, roots[2]) ==> detection::is_disallowed(path));
    assert(detection::is_at_or_below(path, roots[3]) ==> detection::is_disallowed(path));
    assert(detection::is_at_or_below(path, roots[4]) ==> detection::is_disallowed(path));
}

/// The parts of unwanted agents, written out.
proof fn lemma_bad_agents(folded: Seq<char>)
    ensures
        text::mentions_any(folded, detection::known_bad_agents()) <==> {
            ||| text::occurs("python-requests"@, folded)
            ||| text::occurs("scrapy"@, folded)
            ||| text::occurs("curl"@, folded)
            ||| text::occurs("wget"@, folded)
            ||| text::occurs("httpclient"@, folded)
            ||| text::occurs("masscan"@, folded)
            ||| text::occurs("nikto"@, folded)
            ||| text::occurs("sqlmap"@, folded)
            ||| text::occurs("bot"@, folded)
            ||| text::occurs("crawler"@, folded)
        },
{
    let parts = detection::known_bad_agents();
    assert(parts[0] == "python-requests"@);
    assert(parts[1] == "scrapy"@);
    assert(parts[2] == "curl"@);
    assert(parts[3] == "wget"@);
    assert(parts[4] == "httpclient"@);
    assert(parts[5] == "masscan"@);
    assert(parts[6] == "nikto"@);
    assert(parts[7] == "sqlmap"@);
    assert(parts[8] == "bot"@);
    assert(parts[9] == "crawler"@);
}

/// The parts of welcome agents, written out.
proof fn lemma_welcome_agents(folded: Seq<char>)
    ensures
        text::mentions_any(folded, detection::known_benign_crawlers()) <==> {
            ||| text::occurs("googlebot"@, folded)
            ||| text::occurs("bingbot"@, folded)
            ||| text::occurs("duckduckbot"@, folded)
            ||| text::occurs("slurp"@, folded)
            ||| text::occurs("applebot"@, folded)
        },
{
    let parts = detection::known_benign_crawlers();
    assert(parts[0] == "googlebot"@);
    assert(parts[1] == "bingbot"@);
    assert(parts[2] == "duckduckbot"@);
    assert(parts[3] == "slurp"@);
    assert(parts[4] == "applebot"@);
}

/// What the path of a request says of it.
pub proof fn law_paths_show_what_is_asked_for(
    metadata: RequestMetadata,
    path: String,
    freq: FrequencyFeatures,
    now: i64,
    features: ExtractedFeatures,
)
    requires
        metadata.path == Some(path),
        call_ensures(detection::extract_features_at, (&metadata, freq, now), features),
    ensures
        features.path_disallowed == 1 <==> {
            ||| path@ == "/admin"@
            ||| path@ == "/internal"@
            ||| path@ == "/.env"@
            ||| path@ == "/wp-admin"@
            ||| path@ == "/xmlrpc.php"@
            ||| "/admin/"@.is_prefix_of(path@)
            ||| "/internal/"@.is_prefix_of(path@)
            ||| "/.env/"@.is_prefix_of(path@)
            ||| "/wp-admin/"@.is_prefix_of(path@)
            ||| "/xmlrpc.php/"@.is_prefix_of(path@)
        },
        features.path_is_wp == 1 <==> text::occurs("/wp-"@, path@) || text::occurs(
            "/xmlrpc.php"@,
            path@,
        ),
        features.path_is_root == 1 <==> path@ == "/"@,
        features.path_has_docs == 1 <==> text::occurs("/docs"@, path@),
        features.path_depth == text::count_of(path@, '/'),
        features.path_length == text::byte_len(path@),
        features.path_disallowed <= 1,
        features.path_is_wp <= 1,
        features.path_is_root <= 1,
        features.path_has_docs <= 1,
{
    lemma_guarded_paths(path@);
}

/// What the agent of a request says of it, in whatever case it is written. The
/// name of a welcome crawler counts only where the crawler was verified.
pub proof fn law_agents_show_who_asks(
    metadata: RequestMetadata,
    agent: String,
    freq: FrequencyFeatures,
    now: i64,
    features: ExtractedFeatures,
)
    requires
        metadata.user_agent == Some(agent),
        call_ensures(detection::extract_features_at, (&metadata, freq, now), features),
    ensures
        ({
            let folded = text::lower(agent@);
            &&& features.ua_is_known_bad == 1 <==> {
                ||| text::occurs("python-requests"@, folded)
                ||| text::occurs("scrapy"@, folded)
                ||| text::occurs("curl"@, folded)
                ||| text::occurs("wget"@, folded)
                ||| text::occurs("httpclient"@, folded)
                ||| text::occurs("masscan"@, folded)
                ||| text::occurs("nikto"@, folded)
                ||| text::occurs("sqlmap"@, folded)
                ||| text::occurs("bot"@, folded)
                ||| text::occurs("crawler"@, folded)
            }
            &&& features.ua_is_known_benign_crawler == 1 <==> metadata.verified_bot == Some(true) && {
                ||| text::occurs("googlebot"@, folded)
                ||| text::occurs("bingbot"@, folded)
                ||| text::occurs("duckduckbot"@, folded)
                ||| text::occurs("slurp"@, folded)
                ||| text::occurs("applebot"@, folded)
            }
            &&& features.ua_library_is_bot == 1 <==> text::occurs("bot"@, folded) || text::occurs(
                "crawler"@,
                folded,
            )
            &&& features.ua_is_empty == 1 <==> agent@.len() == 0
            &&& features.ua_length == text::byte_len(agent@)
            &&& features.ua_is_known_bad <= 1
            &&& features.ua_is_known_benign_crawler <= 1
            &&& features.ua_library_is_bot <= 1
            &&& features.ua_is_empty <= 1
        }),
{
    lemma_bad_agents(text::lower(agent@));
    lemma_welcome_agents(text::lower(agent@));
}

/// What else a request and its history say of it.
pub proof fn law_requests_are_described(
    metadata: RequestMetadata,
    referer: String,
    freq: FrequencyFeatures,
    now: i64,
    features: ExtractedFeatures,
)
    requires
        metadata.referer == Some(referer),
        call_ensures(detection::extract_features_at, (&metadata, freq, now), features),
    ensures
        features.referer_is_empty == 1 <==> referer@.len() == 0,
        features.referer_is_empty <= 1,
        features.referer_has_domain == 1 <==> text::occurs("://"@, referer@) && text::pieces(
            referer@,
            '/',
        ).len() >= 3,
        features.referer_has_domain <= 1,
        features.request_frequency == freq.count,
        features.time_since_last == freq.time_since,
        features.country_code@.len() == 0,
        metadata.status matches Some(status) ==> features.status_code == status,
        metadata.bytes matches Some(bytes) ==> features.bytes_sent == bytes,
        metadata.method matches Some(method) ==> features.http_method@ == method@,
        metadata.fingerprint_reuse_count matches Some(count) ==> features.fingerprint_reuse_count
            == count,
{
}

/// What a request does not say is taken as empty, zero, seen once, or now.
pub proof fn law_unknown_fields_have_defaults(
    metadata: RequestMetadata,
    freq: FrequencyFeatures,
    now: i64,
    features: ExtractedFeatures,
)
    requires
        call_ensures(detection::extract_features_at, (&metadata, freq, now), features),
    ensures
        metadata.path is None ==> features.path_length == 0 && features.path_depth == 0
            && features.path_is_root == 0 && features.path_disallowed == 0 && features.path_is_wp
            == 0 && features.path_has_docs == 0,
        metadata.user_agent is None ==> features.ua_is_empty == 1 && features.ua_length == 0
            && features.ua_is_known_bad == 0 && features.ua_is_known_benign_crawler == 0
            && features.ua_library_is_bot == 0,
        metadata.referer is None ==> features.referer_is_empty == 1 && features.referer_has_domain
            == 0,
        metadata.status is None ==> features.status_code == 0,
        metadata.bytes is None ==> features.bytes_sent == 0,
        metadata.method is None ==> features.http_method@ == "UNKNOWN"@,
        metadata.fingerprint_reuse_count is None ==> features.fingerprint_reuse_count == 1,
        metadata.timestamp is None ==> features.hour_of_day == detection::hour_of(now as int)
            && features.day_of_week == detection::weekday_of(now as int),
{
    let none = Seq::<char>::empty();
    assert(text::lower(none) =~= none);
    lemma_guarded_paths(none);
    lemma_bad_agents(none);
    lemma_welcome_agents(none);
    reveal_strlit("/");
    reveal_strlit("/docs");
    reveal_strlit("/wp-");
    reveal_strlit("/xmlrpc.php");
    reveal_strlit("/admin");
    reveal_strlit("/internal");
    reveal_strlit("/.env");
    reveal_strlit("/wp-admin");
    reveal_strlit("/admin/");
    reveal_strlit("/internal/");
    reveal_strlit("/.env/");
    reveal_strlit("/wp-admin/");
    reveal_strlit("/xmlrpc.php/");
    reveal_strlit("python-requests");
    reveal_strlit("scrapy");
    reveal_strlit("curl");
    reveal_strlit("wget");
    reveal_strlit("httpclient");
    reveal_strlit("masscan");
    reveal_strlit("nikto");
    reveal_strlit("sqlmap");
    reveal_strlit("bot");
    reveal_strlit("crawler");
    reveal_strlit("googlebot");
    reveal_strlit("bingbot");
    reveal_strlit("duckduckbot");
    reveal_strlit("slurp");
    reveal_strlit("applebot");
    reveal_strlit("://");
    assert("/"@.len() == 1);
    assert("/docs"@.len() == 5);
    assert("/wp-"@.len() == 4);
    assert("/xmlrpc.php"@.len() == 11);
    assert("/admin"@.len() == 6);
    assert("/internal"@.len() == 9);
    assert("/.env"@.len() == 5);
    assert("/wp-admin"@.len() == 9);
    assert("/admin/"@.len() == 7);
    assert("/internal/"@.len() == 10);
    assert("/.env/"@.len() == 6);
    assert("/wp-admin/"@.len() == 10);
    assert("/xmlrpc.php/"@.len() == 12);
    assert("python-requests"@.len() == 15);
    assert("scrapy"@.len() == 6);
    assert("curl"@.len() == 4);
    assert("wget"@.len() == 4);
    assert("httpclient"@.len() == 10);
    assert("masscan"@.len() == 7);
    assert("nikto"@.len() == 5);
    assert("sqlmap"@.len() == 6);
    assert("bot"@.len() == 3);
    assert("crawler"@.len() == 7);
    assert("googlebot"@.len() == 9);
    assert("bingbot"@.len() == 7);
    assert("duckduckbot"@.len() == 11);
    assert("slurp"@.len() == 5);
    assert("applebot"@.len() == 8);
    assert("://"@.len() == 3);
    assert(vstd::utf8::encode_utf8(none).len() == 0);
}

/// The hour and the weekday are those of the moment in UTC: `days` whole days,
/// `hours` hours and `rest` seconds after the beginning of 1970, a Thursday.
pub proof fn law_moments_are_read_in_utc(
    metadata: RequestMetadata,
    freq: FrequencyFeatures,
    now: i64,
    features: ExtractedFeatures,
    days: int,
    hours: int,
    rest: int,
)
    requires
        call_ensures(detection::extract_features_at, (&metadata, freq, now), features),
        metadata.timestamp matches Some(moment) && moment == days * 86_400 + hours * 3_600 + rest,
        0 <= hours < 24,
        0 <= rest < 3_600,
    ensures
        features.hour_of_day == hours,
        0 <= features.day_of_week < 7,
        (features.day_of_week - days - 3) % 7 == 0,
{
    let moment = metadata.timestamp->0 as int;
    assert(moment % 86_400 == hours * 3_600 + rest);
    assert(moment / 86_400 == days);
}

/// The value of a header is that of the first with its name, in lower case.
pub proof fn law_first_header_counts(
    headers: Vec<(String, String)>,
    name: &str,
    value: String,
    at: int,
)
    requires
        call_ensures(detection::header, (&headers, name), value),
        0 <= at <= headers@.len(),
        forall|i: int|
            0 <= i < at ==> !text::same_ignoring_case((#[trigger] headers@[i]).0@, name@),
        at < headers@.len() ==> text::same_ignoring_case(headers@[at].0@, name@),
    ensures
        at < headers@.len() ==> value@ == text::lower(headers@[at].1@),
        at == headers@.len() ==> value@.len() == 0,
{
    lemma_header_of(detection::pairs_view(headers@), name@, at);
}

/// The first header with a name is the one that is found.
proof fn lemma_header_of(headers: Seq<(Seq<char>, Seq<char>)>, name: Seq<char>, at: int)
    requires
        0 <= at <= headers.len(),
        forall|i: int|
            0 <= i < at ==> !text::same_ignoring_case((#[trigger] headers[i]).0, name),
        at < headers.len() ==> text::same_ignoring_case(headers[at].0, name),
    ensures
        at < headers.len() ==> detection::header_of(headers, name) == text::lower(headers[at].1),
        at == headers.len() ==> detection::header_of(headers, name).len() == 0,
    decreases at,
{
    if at > 0 {
        assert(!text::same_ignoring_case(headers[0].0, name));
        let rest = headers.drop_first();
        assert forall|i: int| 0 <= i < at - 1 implies !text::same_ignoring_case(
            (#[trigger] rest[i]).0,
            name,
        ) by {
            assert(rest[i] == headers[i + 1]);
        }
        lemma_header_of(rest, name, at - 1);
    }
}

/// A fingerprint that came with the request is kept. Any other is the SHA-256
/// of the agent, the four browser headers and the two TLS values, parted by bars.
pub proof fn law_fingerprints_cover_the_browser(
    metadata: RequestMetadata,
    headers: Vec<(String, String)>,
    fingerprint: String,
)
    requires
        call_ensures(detection::browser_fingerprint, (&metadata,), fingerprint),
        metadata.headers == Some(headers),
    ensures
        metadata.fingerprint_id matches Some(id) ==> id@.len() > 0 ==> fingerprint@ == id@,
        (metadata.fingerprint_id is None || metadata.fingerprint_id->0@.len() == 0) ==> ({
            let pairs = detection::pairs_view(headers@);
            let agent = match metadata.user_agent {
                Some(agent) => text::lower(agent@),
                None => Seq::empty(),
            };
            let ja3 = match tls::ja3_of(text::opt_view(metadata.tls_ja3)) {
                Some(ja3) => ja3,
                None => Seq::empty(),
            };
            let ja4 = match tls::ja4_of(text::opt_view(metadata.tls_ja4)) {
                Some(ja4) => ja4,
                None => Seq::empty(),
            };
            let bound = agent + "|"@ + detection::header_of(pairs, "accept-language"@) + "|"@
                + detection::header_of(pairs, "accept"@) + "|"@ + detection::header_of(
                pairs,
                "sec-ch-ua"@,
            ) + "|"@ + detection::header_of(pairs, "sec-fetch-site"@) + "|"@ + ja3 + "|"@ + ja4;
            fingerprint@ == outside::hex_text(
                outside::sha256_of(vstd::utf8::encode_utf8(bound))@,
            )
        }),
{
    let parts = detection::fingerprint_parts(metadata@);
    assert(text::lower(Seq::<char>::empty()) =~= Seq::<char>::empty());
    reveal_with_fuel(text::joined, 8);
    assert(parts.drop_last() =~= seq![parts[0], parts[1], parts[2], parts[3], parts[4], parts[5]]);
    assert(parts.drop_last().drop_last() =~= seq![
        parts[0],
        parts[1],
        parts[2],
        parts[3],
        parts[4],
    ]);
    assert(parts.drop_last().drop_last().drop_last() =~= seq![
        parts[0],
        parts[1],
        parts[2],
        parts[3],
    ]);
    assert(parts.drop_last().drop_last().drop_last().drop_last() =~= seq![
        parts[0],
        parts[1],
        parts[2],
    ]);
    assert(parts.drop_last().drop_last().drop_last().drop_last().drop_last() =~= seq![
        parts[0],
        parts[1],
    ]);
    assert(parts.drop_last().drop_last().drop_last().drop_last().drop_last().drop_last()
        =~= seq![parts[0]]);
}

/// Where a client asks, when, and with which method does not change who it is:
/// requests with the same agent, headers, TLS values and identifier have the
/// same fingerprint.
pub proof fn law_fingerprints_follow_the_client(
    metadata: RequestMetadata,
    other: RequestMetadata,
    fingerprint: String,
    other_fingerprint: String,
)
    requires
        call_ensures(detection::browser_fingerprint, (&metadata,), fingerprint),
        call_ensures(detection::browser_fingerprint, (&other,), other_fingerprint),
        metadata.fingerprint_id is None,
        other.fingerprint_id is None,
        metadata@.headers == other@.headers,
        metadata@.tls_ja3 == other@.tls_ja3,
        metadata@.tls_ja4 == other@.tls_ja4,
        metadata.user_agent matches Some(agent) && other.user_agent matches Some(shown)
            && text::same_ignoring_case(agent@, shown@),
    ensures
        fingerprint@ == other_fingerprint@,
{
}

/// The features that a model weighs, by name and in order, each with what it is
/// a fraction of, taken from the request itself.
pub proof fn law_model_entries_are_the_named_features(
    features: ExtractedFeatures,
    entries: Vec<(u64, u64)>,
    names: Vec<String>,
)
    requires
        call_ensures(model::model_feature_vector, (&features,), entries),
        call_ensures(model::model_feature_names, (), names),
    ensures
        entries@.len() == 10,
        names@.len() == 10,
        forall|i: int|
            #![trigger entries@[i]]
            #![trigger names@[i]]
            0 <= i < 10 ==> {
                &&& names@[i]@ == "ua_is_known_bad"@ ==> entries@[i] == (
                    features.ua_is_known_bad as u64,
                    1u64,
                )
                &&& names@[i]@ == "ua_is_empty"@ ==> entries@[i] == (
                    features.ua_is_empty as u64,
                    1u64,
                )
                &&& names@[i]@ == "ua_library_is_bot"@ ==> entries@[i] == (
                    features.ua_library_is_bot as u64,
                    1u64,
                )
                &&& names@[i]@ == "path_disallowed"@ ==> entries@[i] == (
                    features.path_disallowed as u64,
                    1u64,
                )
                &&& names@[i]@ == "path_is_wp"@ ==> entries@[i] == (
                    features.path_is_wp as u64,
                    1u64,
                )
                &&& names@[i]@ == "referer_is_empty"@ ==> entries@[i] == (
                    features.referer_is_empty as u64,
                    1u64,
                )
                &&& names@[i]@ == "ua_is_known_benign_crawler"@ ==> entries@[i] == (
                    features.ua_is_known_benign_crawler as u64,
                    1u64,
                )
                &&& names@[i]@ == "request_frequency"@ ==> entries@[i].1 == 100
                    && entries@[i].0 == (if features.request_frequency < 100 {
                    features.request_frequency
                } else {
                    100u64
                })
                &&& names@[i]@ == "rapid_repeat"@ ==> entries@[i].1 == 1 && (entries@[i].0 == 1
                    <==> features.time_since_last is Some && 0 <= features.time_since_last->0
                    && features.time_since_last->0 < 250_000_000) && entries@[i].0 <= 1
                &&& names@[i]@ == "fingerprint_reuse_count"@ ==> entries@[i].1 == 10
                    && entries@[i].0 == (if features.fingerprint_reuse_count < 10 {
                    features.fingerprint_reuse_count
                } else {
                    10u64
                })
            },
        names@[0]@ == "ua_is_known_bad"@,
        names@[1]@ == "ua_is_empty"@,
        names@[2]@ == "ua_library_is_bot"@,
        names@[3]@ == "path_disallowed"@,
        names@[4]@ == "path_is_wp"@,
        names@[5]@ == "referer_is_empty"@,
        names@[6]@ == "ua_is_known_benign_crawler"@,
        names@[7]@ == "request_frequency"@,
        names@[8]@ == "rapid_repeat"@,
        names@[9]@ == "fingerprint_reuse_count"@,
{
    lemma_feature_names_differ();
    let all = model::feature_names();
    assert(text::views(names@).len() == names@.len());
    assert forall|i: int| 0 <= i < 10 implies (#[trigger] names@[i])@ == all[i] by {
        assert(text::views(names@)[i] == names@[i]@);
    }
    assert(names@[0]@ == all[0]);
    assert(names@[1]@ == all[1]);
    assert(names@[2]@ == all[2]);
    assert(names@[3]@ == all[3]);
    assert(names@[4]@ == all[4]);
    assert(names@[5]@ == all[5]);
    assert(names@[6]@ == all[6]);
    assert(names@[7]@ == all[7]);
    assert(names@[8]@ == all[8]);
    assert(names@[9]@ == all[9]);
    assert forall|i: int| 0 <= i < 10 implies (#[trigger] entries@[i]).0
        == model::weighed_features(features@)[i] && entries@[i].1 == model::feature_scales()[i] by {}
}

/// What tells these names apart.
proof fn lemma_feature_names_differ()
    ensures
        "ua_is_known_bad"@.len() == 15,
        "ua_is_empty"@.len() == 11,
        "ua_library_is_bot"@.len() == 17,
        "path_disallowed"@.len() == 15,
        "path_is_wp"@.len() == 10,
        "referer_is_empty"@.len() == 16,
        "ua_is_known_benign_crawler"@.len() == 26,
        "request_frequency"@.len() == 17,
        "rapid_repeat"@.len() == 12,
        "fingerprint_reuse_count"@.len() == 23,
        "ua_is_known_bad"@[0] == 'u',
        "path_disallowed"@[0] == 'p',
        "ua_library_is_bot"@[0] == 'u',
        "request_frequency"@[0] == 'r',
{
    reveal_strlit("ua_is_known_bad");
    reveal_strlit("ua_is_empty");
    reveal_strlit("ua_library_is_bot");
    reveal_strlit("path_disallowed");
    reveal_strlit("path_is_wp");
    reveal_strlit("referer_is_empty");
    reveal_strlit("ua_is_known_benign_crawler");
    reveal_strlit("request_frequency");
    reveal_strlit("rapid_repeat");
    reveal_strlit("fingerprint_reuse_count");
}

/// What a model weighs follows from the request: the fourth entry is one exactly
/// for a guarded path, the fifth for a WordPress one, the first for the agent of
/// an unwanted client, the seventh for a verified crawler.
pub proof fn law_model_weighs_the_request(
    metadata: RequestMetadata,
    path: String,
    agent: String,
    referer: String,
    freq: FrequencyFeatures,
    now: i64,
    features: ExtractedFeatures,
    entries: Vec<(u64, u64)>,
)
    requires
        metadata.path == Some(path),
        metadata.user_agent == Some(agent),
        metadata.referer == Some(referer),
        call_ensures(detection::extract_features_at, (&metadata, freq, now), features),
        call_ensures(model::model_feature_vector, (&features,), entries),
    ensures
        entries@.len() == 10,
        entries@[3].0 == 1 <==> {
            ||| path@ == "/admin"@
            ||| path@ == "/internal"@
            ||| path@ == "/.env"@
            ||| path@ == "/wp-admin"@
            ||| path@ == "/xmlrpc.php"@
            ||| "/admin/"@.is_prefix_of(path@)
            ||| "/internal/"@.is_prefix_of(path@)
            ||| "/.env/"@.is_prefix_of(path@)
            ||| "/wp-admin/"@.is_prefix_of(path@)
            ||| "/xmlrpc.php/"@.is_prefix_of(path@)
        },
        entries@[4].0 == 1 <==> text::occurs("/wp-"@, path@) || text::occurs(
            "/xmlrpc.php"@,
            path@,
        ),
        ({
            let folded = text::lower(agent@);
            &&& entries@[0].0 == 1 <==> {
                ||| text::occurs("python-requests"@, folded)
                ||| text::occurs("scrapy"@, folded)
                ||| text::occurs("curl"@, folded)
                ||| text::occurs("wget"@, folded)
                ||| text::occurs("httpclient"@, folded)
                ||| text::occurs("masscan"@, folded)
                ||| text::occurs("nikto"@, folded)
                ||| text::occurs("sqlmap"@, folded)
                ||| text::occurs("bot"@, folded)
                ||| text::occurs("crawler"@, folded)
            }
            &&& entries@[2].0 == 1 <==> text::occurs("bot"@, folded) || text::occurs(
                "crawler"@,
                folded,
            )
            &&& entries@[6].0 == 1 <==> metadata.verified_bot == Some(true) && {
                ||| text::occurs("googlebot"@, folded)
                ||| text::occurs("bingbot"@, folded)
                ||| text::occurs("duckduckbot"@, folded)
                ||| text::occurs("slurp"@, folded)
                ||| text::occurs("applebot"@, folded)
            }
        }),
        entries@[1].0 == 1 <==> agent@.len() == 0,
        entries@[5].0 == 1 <==> referer@.len() == 0,
        entries@[7].0 == (if freq.count < 100 {
            freq.count
        } else {
            100u64
        }),
        entries@[8].0 == 1 <==> freq.time_since is Some && 0 <= freq.time_since->0
            && freq.time_since->0 < 250_000_000,
        metadata.fingerprint_reuse_count matches Some(count) ==> entries@[9].0 == (if count < 10 {
            count
        } else {
            10u64
        }),
        metadata.fingerprint_reuse_count is None ==> entries@[9].0 == 1,
{
    lemma_guarded_paths(path@);
    lemma_bad_agents(text::lower(agent@));
    lemma_welcome_agents(text::lower(agent@));
    let weighed = model::weighed_features(features@);
    assert(entries@[0].0 == weighed[0]);
    assert(entries@[1].0 == weighed[1]);
    assert(entries@[2].0 == weighed[2]);
    assert(entries@[3].0 == weighed[3]);
    assert(entries@[4].0 == weighed[4]);
    assert(entries@[5].0 == weighed[5]);
    assert(entries@[6].0 == weighed[6]);
    assert(entries@[7].0 == weighed[7]);
    assert(entries@[8].0 == weighed[8]);
    assert(entries@[9].0 == weighed[9]);
}

/// One shape of artifact is accepted: version one of a logistic regression over
/// the ten features in order, with ten finite weights.
pub proof fn law_artifacts_have_one_shape(
    artifact: TrainedLinearModel,
    names: Vec<String>,
    verdict: Result<(), String>,
)
    requires
        call_ensures(TrainedLinearModel::validate, (&artifact,), verdict),
        call_ensures(model::model_feature_names, (), names),
    ensures
        verdict is Ok <==> artifact.schema_version == 1 && artifact.algorithm@
            == "logistic_regression"@ && text::views(artifact.feature_names@) == text::views(names@)
            && artifact.weight_count == 10 && artifact.all_finite,
{
}

/// The features of a request that names its moment do not depend on the clock.
pub proof fn law_dated_requests_need_no_clock(
    metadata: RequestMetadata,
    freq: FrequencyFeatures,
    now: i64,
    by_clock: ExtractedFeatures,
    features: ExtractedFeatures,
)
    requires
        metadata.timestamp is Some,
        call_ensures(detection::extract_features, (&metadata, freq), by_clock),
        call_ensures(detection::extract_features_at, (&metadata, freq, now), features),
    ensures
        by_clock@ == features@,
{
}

} // verus!
