//! Routing of prompts: which are answered by the local model, and which are
//! handed to the cloud.
use vstd::prelude::*;
use crate::json;
use crate::json::{Json, JsonObject, JsonView};
use crate::settings;
use crate::text;

verus! {

/// How many tokens the local model is asked for at most, where nothing is configured.
pub const MAX_LOCAL_TOKENS: u64 = 2048;

/// Where a prompt goes: to the cloud when it asks for more tokens than the
/// local model serves, else to the configured target.
pub open spec fn target_of(
    requested: Option<u64>,
    max_local_tokens: u64,
    local_target: Option<Seq<char>>,
) -> Seq<char> {
    if requested matches Some(tokens) && tokens > max_local_tokens {
        "cloud-proxy"@
    } else {
        settings::string_setting(local_target, "local-inference"@)
    }
}

/// Where a prompt goes.
pub fn route_target(requested: Option<u64>, max_local_tokens: u64, local_target: Option<&str>) -> (r:
    String)
    ensures
        r@ == target_of(requested, max_local_tokens, text::opt_str_view(local_target)),
{
    let tokens: u64 = match requested {
        Some(n) => n,
        None => 0,
    };
    if tokens > max_local_tokens {
        "cloud-proxy".to_string()
    } else {
        settings::env_string(local_target, "local-inference")
    }
}

/// Whether a target is the cloud.
pub fn is_cloud_target(target: &str) -> (r: bool)
    ensures
        r == (target@ == "cloud-proxy"@),
{
    text::text_eq(target, "cloud-proxy")
}

/// What a prompt that was handed to the cloud is answered.
pub fn forwarded_answer(success: bool, target: &str, upstream_status: u16, response: Json) -> (r:
    Json)
    ensures
        r@ == JsonView::Object(
            map![
                "status"@ => JsonView::Text(if success { "success"@ } else { "error"@ }),
                "target"@ => JsonView::Text(target@),
                "upstream_status"@ => JsonView::Int(upstream_status as int),
                "response"@ => response@,
            ],
        ),
{
    let mut body = JsonObject::new();
    body.put(
        "status",
        json::text_value(
            if success {
                "success"
            } else {
                "error"
            },
        ),
    );
    body.put("target", json::text_value(target));
    body.put("upstream_status", Json::Unsigned(upstream_status as u64));
    body.put("response", response);
    Json::Object(body)
}

/// What a prompt is answered that could not be handed to the cloud.
pub fn unreachable_answer(target: &str, message: &str) -> (r: Json)
    ensures
        r@ == JsonView::Object(
            map![
                "status"@ => JsonView::Text("error"@),
                "target"@ => JsonView::Text(target@),
                "message"@ => JsonView::Text(message@),
            ],
        ),
{
    let mut body = JsonObject::new();
    body.put("status", json::text_value("error"));
    body.put("target", json::text_value(target));
    body.put("message", json::text_value(message));
    Json::Object(body)
}

/// What a prompt for the local model is answered.
pub fn local_answer(target: &str, prompt: Option<&str>, max_local_tokens: u64) -> (r: Json)
    ensures
        r@ == JsonView::Object(
            map![
                "status"@ => JsonView::Text("success"@),
                "target"@ => JsonView::Text(target@),
                "prompt_len"@ => JsonView::Int(
                    text::byte_len(
                        settings::string_setting(text::opt_str_view(prompt), ""@),
                    ) as int,
                ),
                "max_local_tokens"@ => JsonView::Int(max_local_tokens as int),
            ],
        ),
{
    let said = prompt.unwrap_or("");
    let length = text::byte_count(said);
    let mut body = JsonObject::new();
    body.put("status", json::text_value("success"));
    body.put("target", json::text_value(target));
    body.put("prompt_len", Json::Unsigned(length as u64));
    body.put("max_local_tokens", Json::Unsigned(max_local_tokens));
    Json::Object(body)
}

/// A prompt that asks for no more tokens than the local model serves stays
/// local, unless the configured target is the cloud itself.
pub proof fn law_small_prompts_stay_local(
    requested: Option<u64>,
    max_local_tokens: u64,
    local_target: Option<Seq<char>>,
)
    requires
        requested is None || requested->0 <= max_local_tokens,
        local_target != Some("cloud-proxy"@),
    ensures
        target_of(requested, max_local_tokens, local_target) != "cloud-proxy"@,
{
    reveal_strlit("cloud-proxy");
    reveal_strlit("local-inference");
    assert("cloud-proxy"@.len() != "local-inference"@.len());
}

} // verus!
