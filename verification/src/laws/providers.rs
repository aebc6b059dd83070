//! What model requests are owed: which provider answers, what it is sent and
//! with which credentials, and what an operator is advised.
use vstd::prelude::*;
use crate::cloud_proxy;
use crate::headers::Headers;
use crate::ip::IpAddress;
use crate::json;
use crate::json::{Json, JsonView};
use crate::laws::answers::says;
use crate::origin;
use crate::origin::TrustedProxies;
use crate::prompt_router;
use crate::providers;
use crate::providers::{ModelProvider, ProviderKind};
use crate::recommender;
use crate::text;
use crate::tls;
use crate::tls::TlsFingerprint;

verus! {

/// What tells these names apart.
proof fn lemma_kind_names_differ()
    ensures
        "openai"@.len() == 6,
        "openai-compatible"@.len() == 17,
        "anthropic"@.len() == 9,
        "anthropic-compatible"@.len() == 20,
        "cohere"@.len() == 6,
        "cohere-compatible"@.len() == 17,
        "gemini"@.len() == 6,
        "google"@.len() == 6,
        "gemini-compatible"@.len() == 17,
        "mistral"@.len() == 7,
        "mistral-compatible"@.len() == 18,
        "ollama"@.len() == 6,
        "ollama-compatible"@.len() == 17,
        "local"@.len() == 5,
        "local-http"@.len() == 10,
        "generic-http"@.len() == 12,
        "openai"@[2] == 'e',
        "cohere"@[2] == 'h',
        "gemini"@[2] == 'm',
        "google"@[2] == 'o',
        "ollama"@[2] == 'l',
        "openai-compatible"@[1] == 'p',
        "cohere-compatible"@[1] == 'o',
        "gemini-compatible"@[1] == 'e',
        "ollama-compatible"@[1] == 'l',
{
    reveal_strlit("openai");
    reveal_strlit("openai-compatible");
    reveal_strlit("anthropic");
    reveal_strlit("anthropic-compatible");
    reveal_strlit("cohere");
    reveal_strlit("cohere-compatible");
    reveal_strlit("gemini");
    reveal_strlit("google");
    reveal_strlit("gemini-compatible");
    reveal_strlit("mistral");
    reveal_strlit("mistral-compatible");
    reveal_strlit("ollama");
    reveal_strlit("ollama-compatible");
    reveal_strlit("local");
    reveal_strlit("local-http");
    reveal_strlit("generic-http");
}

/// A provider goes by its own name or by the name of its protocol, in whatever
/// case; anything else, and nothing, is plain HTTP.
pub proof fn law_providers_go_by_name(value: Option<&str>, kind: ProviderKind)
    requires
        call_ensures(ProviderKind::from_setting, (value,), kind),
    ensures
        value is None ==> kind is GenericHttp,
        value matches Some(word) ==> ({
            let name = text::lower(word@);
            &&& kind is OpenAiCompatible <==> name == "openai"@ || name == "openai-compatible"@
            &&& kind is AnthropicCompatible <==> name == "anthropic"@ || name
                == "anthropic-compatible"@
            &&& kind is CohereCompatible <==> name == "cohere"@ || name == "cohere-compatible"@
            &&& kind is GeminiCompatible <==> name == "gemini"@ || name == "google"@ || name
                == "gemini-compatible"@
            &&& kind is MistralCompatible <==> name == "mistral"@ || name == "mistral-compatible"@
            &&& kind is OllamaCompatible <==> name == "ollama"@ || name == "ollama-compatible"@
            &&& kind is LocalHttp <==> name == "local"@ || name == "local-http"@
        }),
{
    lemma_kind_names_differ();
    reveal_strlit("generic-http");
    assert(text::lower("generic-http"@) =~= "generic-http"@);
}

/// Each kind of provider has a name of its own.
pub proof fn law_providers_are_named(kind: ProviderKind, name: &'static str)
    requires
        call_ensures(ProviderKind::name, (&kind,), name),
    ensures
        kind is GenericHttp <==> name@ == "generic-http"@,
        kind is OpenAiCompatible <==> name@ == "openai-compatible"@,
        kind is AnthropicCompatible <==> name@ == "anthropic-compatible"@,
        kind is CohereCompatible <==> name@ == "cohere-compatible"@,
        kind is GeminiCompatible <==> name@ == "gemini-compatible"@,
        kind is MistralCompatible <==> name@ == "mistral-compatible"@,
        kind is OllamaCompatible <==> name@ == "ollama-compatible"@,
        kind is LocalHttp <==> name@ == "local-http"@,
{
    lemma_kind_names_differ();
}

/// A provider is configured exactly where it has an endpoint; an empty key is
/// none.
pub proof fn law_providers_are_configured(
    endpoint: Option<&str>,
    api_key: Option<&str>,
    kind: Option<&str>,
    chosen: ProviderKind,
    provider: Option<ModelProvider>,
)
    requires
        call_ensures(ProviderKind::from_setting, (kind,), chosen),
        call_ensures(ModelProvider::from_settings, (endpoint, api_key, kind), provider),
    ensures
        provider is Some <==> (endpoint matches Some(url) && url@.len() > 0),
        provider matches Some(found) ==> found.endpoint@ == endpoint->0@ && found.kind == chosen
            && (api_key is None || api_key->0@.len() == 0 ==> found.api_key is None) && (
        api_key matches Some(key) ==> key@.len() > 0 ==> (found.api_key matches Some(kept)
            && kept@ == key@)),
{
}

/// What tells these names apart.
proof fn lemma_request_names_differ()
    ensures
        "model"@.len() == 5,
        "messages"@.len() == 8,
        "max_tokens"@.len() == 10,
        "message"@.len() == 7,
        "prompt"@.len() == 6,
        "stream"@.len() == 6,
        "contents"@.len() == 8,
        "role"@.len() == 4,
        "content"@.len() == 7,
        "messages"@[0] == 'm',
        "contents"@[0] == 'c',
        "message"@[0] == 'm',
        "content"@[0] == 'c',
        "prompt"@[0] == 'p',
        "stream"@[0] == 's',
{
    reveal_strlit("model");
    reveal_strlit("messages");
    reveal_strlit("max_tokens");
    reveal_strlit("message");
    reveal_strlit("prompt");
    reveal_strlit("stream");
    reveal_strlit("contents");
    reveal_strlit("role");
    reveal_strlit("content");
}

/// Every provider that takes a model is asked for the one that the request names,
/// else for the configured one, else for the default.
pub proof fn law_requests_name_a_model(
    provider: ModelProvider,
    request: Json,
    configured: Option<&str>,
    payload: Json,
)
    requires
        call_ensures(
            ModelProvider::normalize_payload,
            (&provider, &request, configured),
            payload,
        ),
        provider.kind is OpenAiCompatible || provider.kind is MistralCompatible || provider.kind
            is AnthropicCompatible || provider.kind is CohereCompatible || provider.kind
            is OllamaCompatible,
    ensures
        json::member(request@, "model"@) matches Some(model) ==> json::member(payload@, "model"@)
            == Some(model),
        json::member(request@, "model"@) is None ==> (configured matches Some(name) ==> says(
            payload@,
            "model"@,
            name@,
        )),
        json::member(request@, "model"@) is None && configured is None ==> says(
            payload@,
            "model"@,
            "default"@,
        ),
{
    lemma_request_names_differ();
}

/// A chat provider gets the messages of the request, else its prompt as the one
/// message of the user, and at most as many tokens as asked for, else 256.
pub proof fn law_chat_providers_get_messages(
    provider: ModelProvider,
    request: Json,
    configured: Option<&str>,
    payload: Json,
)
    requires
        call_ensures(
            ModelProvider::normalize_payload,
            (&provider, &request, configured),
            payload,
        ),
        provider.kind is OpenAiCompatible || provider.kind is MistralCompatible || provider.kind
            is AnthropicCompatible,
    ensures
        json::member(request@, "messages"@) matches Some(messages) ==> json::member(
            payload@,
            "messages"@,
        ) == Some(messages),
        json::member(request@, "messages"@) is None ==> (json::member(payload@, "messages"@)
            matches Some(JsonView::Array(messages)) && messages.len() == 1 && says(
            messages[0],
            "role"@,
            "user"@,
        ) && (json::member(request@, "prompt"@) matches Some(JsonView::Text(prompt)) ==> says(
            messages[0],
            "content"@,
            prompt,
        )) && (!(json::member(request@, "prompt"@) matches Some(JsonView::Text(_))) ==> says(
            messages[0],
            "content"@,
            Seq::empty(),
        ))),
        json::member(request@, "max_tokens"@) matches Some(limit) ==> json::member(
            payload@,
            "max_tokens"@,
        ) == Some(limit),
        json::member(request@, "max_tokens"@) is None ==> json::member(payload@, "max_tokens"@)
            == Some(JsonView::Int(256)),
{
    lemma_request_names_differ();
}

/// The other providers get the prompt in their own form: Cohere as a message,
/// Gemini as the text of the one part of its contents, Ollama as a prompt without
/// a stream, and plain ones the request as it is.
pub proof fn law_other_providers_get_the_prompt(
    provider: ModelProvider,
    request: Json,
    configured: Option<&str>,
    prompt: Seq<char>,
    payload: Json,
)
    requires
        call_ensures(
            ModelProvider::normalize_payload,
            (&provider, &request, configured),
            payload,
        ),
        says(request@, "prompt"@, prompt),
    ensures
        provider.kind is CohereCompatible ==> {
            &&& json::member(request@, "message"@) is None ==> says(payload@, "message"@, prompt)
            &&& json::member(request@, "message"@) matches Some(message) ==> json::member(
                payload@,
                "message"@,
            ) == Some(message)
            &&& json::member(request@, "max_tokens"@) is None ==> json::member(
                payload@,
                "max_tokens"@,
            ) == Some(JsonView::Int(256))
            &&& json::member(request@, "max_tokens"@) matches Some(limit) ==> json::member(
                payload@,
                "max_tokens"@,
            ) == Some(limit)
        },
        provider.kind is OllamaCompatible ==> {
            &&& says(payload@, "prompt"@, prompt)
            &&& json::member(request@, "stream"@) is None ==> json::member(payload@, "stream"@)
                == Some(JsonView::Bool(false))
            &&& json::member(request@, "stream"@) matches Some(stream) ==> json::member(
                payload@,
                "stream"@,
            ) == Some(stream)
        },
        provider.kind is GeminiCompatible ==> {
            &&& json::member(request@, "contents"@) matches Some(contents) ==> json::member(
                payload@,
                "contents"@,
            ) == Some(contents)
            &&& json::member(request@, "contents"@) is None ==> (json::member(
                payload@,
                "contents"@,
            ) matches Some(JsonView::Array(contents)) && contents.len() == 1 && (json::member(
                contents[0],
                "parts"@,
            ) matches Some(JsonView::Array(parts)) && parts.len() == 1 && says(
                parts[0],
                "text"@,
                prompt,
            )))
        },
        provider.kind is GenericHttp || provider.kind is LocalHttp ==> payload@ == request@,
{
    lemma_request_names_differ();
}

/// A provider is shown its key in the header that it reads, and a local one none.
pub proof fn law_providers_are_shown_their_key(
    provider: ModelProvider,
    key: String,
    version: Option<&str>,
    shown: Vec<(String, String)>,
)
    requires
        call_ensures(ModelProvider::authorization, (&provider, version), shown),
        provider.api_key == Some(key),
    ensures
        provider.kind is AnthropicCompatible ==> shown@.len() == 2 && shown@[0].0@ == "x-api-key"@
            && shown@[0].1@ == key@ && shown@[1].0@ == "anthropic-version"@ && (version is None
            ==> shown@[1].1@ == "2023-06-01"@) && (version matches Some(word) ==> shown@[1].1@
            == word@),
        provider.kind is GeminiCompatible ==> shown@.len() == 1 && shown@[0].0@
            == "x-goog-api-key"@ && shown@[0].1@ == key@,
        provider.kind is LocalHttp || provider.kind is OllamaCompatible ==> shown@.len() == 0,
        provider.kind is GenericHttp || provider.kind is OpenAiCompatible || provider.kind
            is CohereCompatible || provider.kind is MistralCompatible ==> shown@.len() == 1
            && shown@[0].0@ == "authorization"@ && shown@[0].1@ == "Bearer "@ + key@,
{
    let pairs = shown@.map_values(|pair: (String, String)| (pair.0@, pair.1@));
    assert(pairs.len() == shown@.len());
    if shown@.len() > 0 {
        assert(pairs[0] == (shown@[0].0@, shown@[0].1@));
    }
    if shown@.len() > 1 {
        assert(pairs[1] == (shown@[1].0@, shown@[1].1@));
    }
}

/// Without a key nothing is shown.
pub proof fn law_no_key_is_shown(
    provider: ModelProvider,
    version: Option<&str>,
    shown: Vec<(String, String)>,
)
    requires
        call_ensures(ModelProvider::authorization, (&provider, version), shown),
        provider.api_key is None,
    ensures
        shown@.len() == 0,
{
    assert(shown@.map_values(|pair: (String, String)| (pair.0@, pair.1@)).len() == shown@.len());
}

/// What tells these names apart.
proof fn lemma_answer_names_differ()
    ensures
        "status"@.len() == 6,
        "provider"@.len() == 8,
        "upstream_status"@.len() == 15,
        "response"@.len() == 8,
        "target"@.len() == 6,
        "message"@.len() == 7,
        "request"@.len() == 7,
        "prompt_len"@.len() == 10,
        "max_local_tokens"@.len() == 16,
        "status"@[0] == 's',
        "target"@[0] == 't',
        "provider"@[0] == 'p',
        "response"@[0] == 'r',
        "message"@[0] == 'm',
        "request"@[0] == 'r',
{
    reveal_strlit("status");
    reveal_strlit("provider");
    reveal_strlit("upstream_status");
    reveal_strlit("response");
    reveal_strlit("target");
    reveal_strlit("message");
    reveal_strlit("request");
    reveal_strlit("prompt_len");
    reveal_strlit("max_local_tokens");
}

/// What a provider answered is told with its name and its status.
pub proof fn law_provider_answers_are_told(
    kind: ProviderKind,
    success: bool,
    status: u16,
    body: Json,
    name: &'static str,
    told: Json,
)
    requires
        call_ensures(ProviderKind::name, (&kind,), name),
        call_ensures(providers::provider_answer, (kind, success, status, body), told),
    ensures
        success ==> says(told@, "status"@, "success"@),
        !success ==> says(told@, "status"@, "error"@),
        says(told@, "provider"@, name@),
        json::member(told@, "upstream_status"@) == Some(JsonView::Int(status as int)),
        json::member(told@, "response"@) == Some(body@),
{
    lemma_answer_names_differ();
}

/// A prompt goes to the cloud exactly where it asks for more tokens than the
/// local model gives, or where the cloud is the local target.
pub proof fn law_large_prompts_go_to_the_cloud(
    requested: Option<u64>,
    limit: u64,
    local: Option<&str>,
    target: String,
    target_text: &str,
    cloud: bool,
)
    requires
        call_ensures(prompt_router::route_target, (requested, limit, local), target),
        target_text@ == target@,
        call_ensures(prompt_router::is_cloud_target, (target_text,), cloud),
    ensures
        requested matches Some(tokens) ==> tokens > limit ==> target@ == "cloud-proxy"@ && cloud,
        (requested is None || requested->0 <= limit) && local is None ==> target@
            == "local-inference"@ && !cloud,
        (requested is None || requested->0 <= limit) ==> (local matches Some(name) ==> target@
            == name@ && (cloud <==> name@ == "cloud-proxy"@)),
{
    reveal_strlit("cloud-proxy");
    reveal_strlit("local-inference");
    assert("cloud-proxy"@.len() == 11);
    assert("local-inference"@.len() == 15);
}

/// What became of a routed prompt is told with the target it went to.
pub proof fn law_routed_prompts_are_answered(
    success: bool,
    target: &str,
    status: u16,
    response: Json,
    message: &str,
    prompt: Option<&str>,
    limit: u64,
    forwarded: Json,
    unreachable: Json,
    local: Json,
)
    requires
        call_ensures(
            prompt_router::forwarded_answer,
            (success, target, status, response),
            forwarded,
        ),
        call_ensures(prompt_router::unreachable_answer, (target, message), unreachable),
        call_ensures(prompt_router::local_answer, (target, prompt, limit), local),
    ensures
        success ==> says(forwarded@, "status"@, "success"@),
        !success ==> says(forwarded@, "status"@, "error"@),
        says(forwarded@, "target"@, target@),
        json::member(forwarded@, "upstream_status"@) == Some(JsonView::Int(status as int)),
        json::member(forwarded@, "response"@) == Some(response@),
        says(unreachable@, "status"@, "error"@),
        says(unreachable@, "target"@, target@),
        says(unreachable@, "message"@, message@),
        says(local@, "status"@, "success"@),
        says(local@, "target"@, target@),
        prompt matches Some(words) ==> json::member(local@, "prompt_len"@) == Some(
            JsonView::Int(text::byte_len(words@) as int),
        ),
        prompt is None ==> json::member(local@, "prompt_len"@) == Some(JsonView::Int(0)),
        json::member(local@, "max_local_tokens"@) == Some(JsonView::Int(limit as int)),
{
    lemma_answer_names_differ();
    reveal_strlit("");
    assert(""@ =~= Seq::<char>::empty());
}

/// Without a provider the request is given back, and a provider that cannot be
/// reached is a bad gateway.
pub proof fn law_missing_providers_are_told(
    payload: Json,
    message: &str,
    unset: Json,
    unreachable: Json,
)
    requires
        call_ensures(cloud_proxy::not_configured, (payload,), unset),
        call_ensures(cloud_proxy::provider_unreachable, (message,), unreachable),
    ensures
        says(unset@, "status"@, "not_configured"@),
        says(unset@, "provider"@, "none"@),
        json::member(unset@, "request"@) == Some(payload@),
        says(unreachable@, "status"@, "error"@),
        says(unreachable@, "provider"@, "configured"@),
        json::member(unreachable@, "upstream_status"@) == Some(JsonView::Int(502)),
        says(unreachable@, "message"@, message@),
{
    lemma_answer_names_differ();
}

/// What tells these names apart.
proof fn lemma_claims_differ()
    ensures
        "tls_ja3"@.len() == 7,
        "tls_ja4"@.len() == 7,
        "tls_fingerprint_source"@.len() == 22,
        "tls_fingerprint_attestation"@.len() == 27,
        "tls_fingerprint_verified"@.len() == 24,
        "ip"@.len() == 2,
        "method"@.len() == 6,
        "path"@.len() == 4,
        "tls_ja3"@[6] == '3',
        "tls_ja4"@[6] == '4',
{
    reveal_strlit("tls_ja3");
    reveal_strlit("tls_ja4");
    reveal_strlit("tls_fingerprint_source");
    reveal_strlit("tls_fingerprint_attestation");
    reveal_strlit("tls_fingerprint_verified");
    reveal_strlit("ip");
    reveal_strlit("method");
    reveal_strlit("path");
}

/// A trusted observation replaces what the client claimed: the payload gets the
/// client that the proxy names and the TLS values that it observed, with a token
/// that attests them for the method and the path of the payload. Everything else
/// of the payload stays.
pub proof fn law_observations_are_bound(
    payload: Json,
    peer: IpAddress,
    headers: Headers,
    proxies: TrustedProxies,
    key: &str,
    now: i64,
    observed: Option<TlsFingerprint>,
    client: Option<String>,
    client_text: &str,
    method: &str,
    path: &str,
    token: Option<String>,
    bound: Json,
    other: Seq<char>,
)
    requires
        payload@ is Object,
        call_ensures(origin::trusted_tls_fingerprint, (&peer, &headers, &proxies), observed),
        call_ensures(origin::trusted_originating_client_ip, (&peer, &headers, &proxies), client),
        observed is Some,
        client matches Some(name) && name@ == client_text@,
        json::member(payload@, "method"@) matches Some(JsonView::Text(named)) ==> method@ == named,
        !(json::member(payload@, "method"@) matches Some(JsonView::Text(_))) ==> method@ == "GET"@,
        json::member(payload@, "path"@) matches Some(JsonView::Text(named)) ==> path@ == named,
        !(json::member(payload@, "path"@) matches Some(JsonView::Text(_))) ==> path@.len() == 0,
        call_ensures(
            tls::create_tls_fingerprint_attestation,
            (key, now, client_text, method, path, &observed->0),
            token,
        ),
        call_ensures(
            cloud_proxy::bind_trusted_tls_fingerprint_at,
            (payload, &peer, &headers, &proxies, key, now),
            bound,
        ),
    ensures
        token matches Some(made) ==> {
            &&& says(bound@, "ip"@, client_text@)
            &&& says(bound@, "tls_fingerprint_attestation"@, made@)
            &&& says(bound@, "tls_fingerprint_source"@, observed->0.source@)
            &&& observed->0.ja3 matches Some(ja3) ==> says(bound@, "tls_ja3"@, ja3@)
            &&& observed->0.ja3 is None ==> json::member(bound@, "tls_ja3"@) is None
            &&& observed->0.ja4 matches Some(ja4) ==> says(bound@, "tls_ja4"@, ja4@)
            &&& observed->0.ja4 is None ==> json::member(bound@, "tls_ja4"@) is None
        },
        token is None ==> json::member(bound@, "tls_ja3"@) is None && json::member(
            bound@,
            "tls_ja4"@,
        ) is None && json::member(bound@, "tls_fingerprint_source"@) is None && json::member(
            bound@,
            "tls_fingerprint_attestation"@,
        ) is None && json::member(bound@, "ip"@) == json::member(payload@, "ip"@),
        json::member(bound@, "tls_fingerprint_verified"@) is None,
        other != "ip"@ && other != "tls_ja3"@ && other != "tls_ja4"@ && other
            != "tls_fingerprint_source"@ && other != "tls_fingerprint_attestation"@ && other
            != "tls_fingerprint_verified"@ ==> json::member(bound@, other) == json::member(
            payload@,
            other,
        ),
{
    lemma_claims_differ();
    let members = payload@->Object_0;
    let clean = cloud_proxy::without_claims(members);
    assert(json::member(JsonView::Object(clean), "method"@) == json::member(payload@, "method"@));
    assert(json::member(JsonView::Object(clean), "path"@) == json::member(payload@, "path"@));
    if !(json::member(payload@, "path"@) matches Some(JsonView::Text(_))) {
        assert(path@ =~= Seq::<char>::empty());
    }
    assert(cloud_proxy::described_request(clean, client_text@, observed->0@)
        == tls::RequestView {
        client_ip: client_text@,
        method: method@,
        path: path@,
        fingerprint: observed->0@,
    });
}

/// What tells these names apart.
proof fn lemma_words_differ()
    ensures
        "1"@.len() == 1,
        "true"@.len() == 4,
        "yes"@.len() == 3,
        "on"@.len() == 2,
        "false"@.len() == 5,
{
    reveal_strlit("1");
    reveal_strlit("true");
    reveal_strlit("yes");
    reveal_strlit("on");
    reveal_strlit("false");
}

/// Cloudflare stands in front where a global CDN is switched on and no other
/// provider is named.
pub proof fn law_cloudflare_is_switched_on(
    global_cdn: Option<&str>,
    provider: Option<&str>,
    enabled: bool,
)
    requires
        call_ensures(recommender::cloudflare_enabled, (global_cdn, provider), enabled),
    ensures
        enabled <==> (global_cdn matches Some(word) && (text::lower(word@) == "1"@ || text::lower(
            word@,
        ) == "true"@ || text::lower(word@) == "yes"@ || text::lower(word@) == "on"@)) && (
        provider matches Some(name) ==> text::lower(name@) == "cloudflare"@),
{
    lemma_words_differ();
    reveal_strlit("false");
    reveal_strlit("cloudflare");
    assert(text::lower("false"@) =~= "false"@);
    assert(text::lower("cloudflare"@) =~= "cloudflare"@);
    let words = recommender::affirmative_words();
    assert(words[0] == "1"@);
    assert(words[1] == "true"@);
    assert(words[2] == "yes"@);
    assert(words[3] == "on"@);
}

/// The share of bots is theirs of all requests; without requests there is none.
pub proof fn law_bot_shares(total: u64, bots: u64, share: Option<(u64, u64)>)
    requires
        call_ensures(recommender::bot_share, (total, bots), share),
    ensures
        share is None <==> total == 0,
        total > 0 && bots <= total ==> share == Some((bots, total)),
        total > 0 && bots > total ==> share == Some((total, total)),
{
}

/// Attack mode is advised exactly where Cloudflare stands in front, enough was
/// asked, and the share of bots is reached.
pub proof fn law_attack_mode_is_advised(
    enabled: bool,
    total: u64,
    minimum: u64,
    reached: bool,
    advised: bool,
)
    requires
        call_ensures(
            recommender::should_recommend_cloudflare,
            (enabled, total, minimum, reached),
            advised,
        ),
    ensures
        advised <==> enabled && reached && total >= minimum && total != 0,
{
}

/// What tells these names apart.
proof fn lemma_advice_names_differ()
    ensures
        "rate_limit_per_minute"@.len() == 21,
        "escalation_threshold"@.len() == 20,
        "tarpit_threshold"@.len() == 16,
        "block_threshold"@.len() == 15,
        "source"@.len() == 6,
        "operator_recommendations"@.len() == 24,
        "id"@.len() == 2,
        "severity"@.len() == 8,
        "advisory"@.len() == 8,
        "message"@.len() == 7,
        "bot_ratio"@.len() == 9,
        "origin_ip_only"@.len() == 14,
        "severity"@[0] == 's',
        "advisory"@[0] == 'a',
{
    reveal_strlit("rate_limit_per_minute");
    reveal_strlit("escalation_threshold");
    reveal_strlit("tarpit_threshold");
    reveal_strlit("block_threshold");
    reveal_strlit("source");
    reveal_strlit("operator_recommendations");
    reveal_strlit("id");
    reveal_strlit("severity");
    reveal_strlit("advisory");
    reveal_strlit("message");
    reveal_strlit("bot_ratio");
    reveal_strlit("origin_ip_only");
}

/// The recommended limits are fixed, with thresholds in order, and attack mode is
/// the one advice, told with the share that led to it.
pub proof fn law_recommendations(ratio: Option<&str>, advice: Json)
    requires
        call_ensures(recommender::recommendations, (ratio,), advice),
    ensures
        json::member(advice@, "rate_limit_per_minute"@) == Some(JsonView::Int(120)),
        json::member(advice@, "escalation_threshold"@) == Some(JsonView::Decimal("0.7"@)),
        json::member(advice@, "tarpit_threshold"@) == Some(JsonView::Decimal("0.82"@)),
        json::member(advice@, "block_threshold"@) == Some(JsonView::Decimal("0.92"@)),
        says(advice@, "source"@, "rust-baseline"@),
        json::member(advice@, "operator_recommendations"@) matches Some(JsonView::Array(list)) && (
        ratio is None ==> list.len() == 0) && (ratio matches Some(share) ==> list.len() == 1
            && says(list[0], "id"@, "enable-cloudflare-under-attack-mode"@) && says(
            list[0],
            "severity"@,
            "high"@,
        ) && json::member(list[0], "advisory"@) == Some(JsonView::Bool(true)) && json::member(
            list[0],
            "bot_ratio"@,
        ) == Some(JsonView::Decimal(share@)) && json::member(list[0], "origin_ip_only"@) == Some(
            JsonView::Bool(true),
        )),
{
    lemma_advice_names_differ();
}

} // verus!
