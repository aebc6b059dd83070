//! Recommendations to operators: the baseline thresholds, and when to consider
//! the attack mode of the network in front.
use vstd::prelude::*;
use crate::json;
use crate::json::{Json, JsonObject, JsonView};
use crate::settings;
use crate::text;

verus! {

/// The words that switch something on.
pub open spec fn affirmative_words() -> Seq<Seq<char>> {
    seq!["1"@, "true"@, "yes"@, "on"@]
}

/// Cloudflare stands in front.
pub open spec fn is_cloudflare(global_cdn: Option<Seq<char>>, provider: Option<Seq<char>>) -> bool {
    affirmative_words().contains(text::lower(settings::string_setting(global_cdn, "false"@)))
        && text::same_ignoring_case(
        settings::string_setting(provider, "cloudflare"@),
        "cloudflare"@,
    )
}

/// Whether Cloudflare stands in front.
pub fn cloudflare_enabled(global_cdn: Option<&str>, provider: Option<&str>) -> (r: bool)
    ensures
        r == is_cloudflare(text::opt_str_view(global_cdn), text::opt_str_view(provider)),
{
    let words = ["1", "true", "yes", "on"];
    assert(text::str_views(words@) =~= affirmative_words());
    let word = text::to_lower(settings::env_string(global_cdn, "false").as_str());
    text::is_one_of(word.as_str(), words.as_slice()) && text::eq_ignoring_case(
        settings::env_string(provider, "cloudflare").as_str(),
        "cloudflare",
    )
}

/// The requests of bots that count: never more than all requests.
pub open spec fn counted_bots(total_requests: u64, bot_requests: u64) -> u64 {
    if bot_requests <= total_requests {
        bot_requests
    } else {
        total_requests
    }
}

/// The share of bots, as a fraction: their requests, of all requests. There is
/// none without requests.
pub fn bot_share(total_requests: u64, bot_requests: u64) -> (r: Option<(u64, u64)>)
    ensures
        r == (if total_requests == 0 {
            None
        } else {
            Some((counted_bots(total_requests, bot_requests), total_requests))
        }),
{
    if total_requests == 0 {
        return None;
    }
    if bot_requests <= total_requests {
        Some((bot_requests, total_requests))
    } else {
        Some((total_requests, total_requests))
    }
}

/// Whether the attack mode is recommended: Cloudflare stands in front, there are
/// requests enough, and the share of bots reaches what is configured.
pub fn should_recommend_cloudflare(
    enabled: bool,
    total_requests: u64,
    minimum_requests: u64,
    share_is_reached: bool,
) -> (r: bool)
    ensures
        r == (enabled && total_requests >= minimum_requests && total_requests > 0
            && share_is_reached),
{
    enabled && total_requests >= minimum_requests && total_requests > 0 && share_is_reached
}

/// The recommendation of the attack mode, with the share of bots as its text.
pub open spec fn attack_advice(bot_ratio: Seq<char>) -> JsonView {
    JsonView::Object(
        map![
            "id"@ => JsonView::Text("enable-cloudflare-under-attack-mode"@),
            "severity"@ => JsonView::Text("high"@),
            "advisory"@ => JsonView::Bool(true),
            "message"@ => JsonView::Text(
                "Review the attack evidence and consider enabling Cloudflare Under Attack Mode for the affected zone."@,
            ),
            "bot_ratio"@ => JsonView::Decimal(bot_ratio),
            "origin_ip_only"@ => JsonView::Bool(true),
        ],
    )
}

/// The recommendation of the attack mode.
fn advise(bot_ratio: &str) -> (r: Json)
    ensures
        r@ == attack_advice(bot_ratio@),
{
    let mut advice = JsonObject::new();
    advice.put("id", json::text_value("enable-cloudflare-under-attack-mode"));
    advice.put("severity", json::text_value("high"));
    advice.put("advisory", Json::Bool(true));
    advice.put(
        "message",
        json::text_value(
            "Review the attack evidence and consider enabling Cloudflare Under Attack Mode for the affected zone.",
        ),
    );
    advice.put("bot_ratio", Json::Decimal(bot_ratio.to_string()));
    advice.put("origin_ip_only", Json::Bool(true));
    Json::Object(advice)
}

/// The recommendations to operators: the advice on the attack mode, where it is due.
pub open spec fn advice_list(bot_ratio: Option<Seq<char>>) -> JsonView {
    match bot_ratio {
        Some(ratio) => JsonView::Array(seq![attack_advice(ratio)]),
        None => JsonView::Array(Seq::empty()),
    }
}

/// The recommendations. The share of bots is given as its text where the attack
/// mode is recommended.
pub fn recommendations(bot_ratio: Option<&str>) -> (r: Json)
    ensures
        r@ == JsonView::Object(
            map![
                "rate_limit_per_minute"@ => JsonView::Int(120),
                "escalation_threshold"@ => JsonView::Decimal("0.7"@),
                "tarpit_threshold"@ => JsonView::Decimal("0.82"@),
                "block_threshold"@ => JsonView::Decimal("0.92"@),
                "source"@ => JsonView::Text("rust-baseline"@),
                "operator_recommendations"@ => advice_list(text::opt_str_view(bot_ratio)),
            ],
        ),
{
    let none: Vec<Json> = Vec::new();
    let advice = match bot_ratio {
        Some(ratio) => json::one_item(advise(ratio)),
        None => Json::Array(none),
    };
    let mut body = JsonObject::new();
    body.put("rate_limit_per_minute", Json::Unsigned(120));
    body.put("escalation_threshold", Json::Decimal("0.7".to_string()));
    body.put("tarpit_threshold", Json::Decimal("0.82".to_string()));
    body.put("block_threshold", Json::Decimal("0.92".to_string()));
    body.put("source", json::text_value("rust-baseline"));
    body.put("operator_recommendations", advice);
    Json::Object(body)
}

/// However many bots are reported, their share is never more than one.
pub proof fn law_share_is_at_most_one(total_requests: u64, bot_requests: u64)
    ensures
        counted_bots(total_requests, bot_requests) <= total_requests,
        counted_bots(total_requests, bot_requests) <= bot_requests,
{
}

} // verus!
