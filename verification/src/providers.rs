//! Model providers: which one is configured, the shape in which each takes a
//! request, and how a request is authorized to it.
use vstd::prelude::*;
use crate::json;
use crate::json::{Json, JsonObject, JsonView};
use crate::settings;
use crate::text;

verus! {

/// The request shapes of model providers.
#[derive(Debug, Clone, Copy, PartialEq, Eq, Structural)]
pub enum ProviderKind {
    GenericHttp,
    OpenAiCompatible,
    AnthropicCompatible,
    CohereCompatible,
    GeminiCompatible,
    MistralCompatible,
    OllamaCompatible,
    LocalHttp,
}

/// A configured model provider.
#[derive(Debug)]
pub struct ModelProvider {
    pub endpoint: String,
    pub api_key: Option<String>,
    pub kind: ProviderKind,
}

/// The name under which a kind of provider is reported.
pub open spec fn kind_name(kind: ProviderKind) -> Seq<char> {
    match kind {
        ProviderKind::GenericHttp => "generic-http"@,
        ProviderKind::OpenAiCompatible => "openai-compatible"@,
        ProviderKind::AnthropicCompatible => "anthropic-compatible"@,
        ProviderKind::CohereCompatible => "cohere-compatible"@,
        ProviderKind::GeminiCompatible => "gemini-compatible"@,
        ProviderKind::MistralCompatible => "mistral-compatible"@,
        ProviderKind::OllamaCompatible => "ollama-compatible"@,
        ProviderKind::LocalHttp => "local-http"@,
    }
}

/// The kind that a setting names in lower case; any other name is generic.
pub open spec fn kind_named(name: Seq<char>) -> ProviderKind {
    if name == "openai"@ || name == "openai-compatible"@ {
        ProviderKind::OpenAiCompatible
    } else if name == "anthropic"@ || name == "anthropic-compatible"@ {
        ProviderKind::AnthropicCompatible
    } else if name == "cohere"@ || name == "cohere-compatible"@ {
        ProviderKind::CohereCompatible
    } else if name == "gemini"@ || name == "google"@ || name == "gemini-compatible"@ {
        ProviderKind::GeminiCompatible
    } else if name == "mistral"@ || name == "mistral-compatible"@ {
        ProviderKind::MistralCompatible
    } else if name == "ollama"@ || name == "ollama-compatible"@ {
        ProviderKind::OllamaCompatible
    } else if name == "local"@ || name == "local-http"@ {
        ProviderKind::LocalHttp
    } else {
        ProviderKind::GenericHttp
    }
}

/// The member of a request, or a default.
pub open spec fn member_or(request: JsonView, name: Seq<char>, default: JsonView) -> JsonView {
    match json::member(request, name) {
        Some(value) => value,
        None => default,
    }
}

/// The prompt of a request, or nothing.
pub open spec fn prompt_of(request: JsonView) -> Seq<char> {
    match json::text_of(json::member(request, "prompt"@)) {
        Some(prompt) => prompt,
        None => Seq::empty(),
    }
}

/// The model that a request asks for, else the configured one, else the default.
pub open spec fn model_of(request: JsonView, configured: Option<Seq<char>>) -> JsonView {
    member_or(
        request,
        "model"@,
        JsonView::Text(
            match configured {
                Some(name) => name,
                None => "default"@,
            },
        ),
    )
}

/// The messages of a request, else its prompt as one message of the user.
pub open spec fn messages_of(request: JsonView) -> JsonView {
    member_or(
        request,
        "messages"@,
        JsonView::Array(
            seq![
                JsonView::Object(
                    map![
                        "role"@ => JsonView::Text("user"@),
                        "content"@ => JsonView::Text(prompt_of(request)),
                    ],
                ),
            ],
        ),
    )
}

/// The token limit of a request, else the default one.
pub open spec fn max_tokens_of(request: JsonView) -> JsonView {
    member_or(request, "max_tokens"@, JsonView::Int(256))
}

/// The contents of a request, else its prompt as one part.
pub open spec fn contents_of(request: JsonView) -> JsonView {
    member_or(
        request,
        "contents"@,
        JsonView::Array(
            seq![
                JsonView::Object(
                    map![
                        "parts"@ => JsonView::Array(
                            seq![
                                JsonView::Object(
                                    map!["text"@ => JsonView::Text(prompt_of(request))],
                                ),
                            ],
                        ),
                    ],
                ),
            ],
        ),
    )
}

/// The request in the shape that a kind of provider takes.
pub open spec fn payload_for(
    kind: ProviderKind,
    request: JsonView,
    configured: Option<Seq<char>>,
) -> JsonView {
    match kind {
        ProviderKind::GenericHttp | ProviderKind::LocalHttp => request,
        ProviderKind::OpenAiCompatible | ProviderKind::MistralCompatible
        | ProviderKind::AnthropicCompatible => JsonView::Object(
            map![
                "model"@ => model_of(request, configured),
                "messages"@ => messages_of(request),
                "max_tokens"@ => max_tokens_of(request),
            ],
        ),
        ProviderKind::CohereCompatible => JsonView::Object(
            map![
                "model"@ => model_of(request, configured),
                "message"@ => member_or(
                    request,
                    "message"@,
                    JsonView::Text(prompt_of(request)),
                ),
                "max_tokens"@ => max_tokens_of(request),
            ],
        ),
        ProviderKind::GeminiCompatible => JsonView::Object(
            map!["contents"@ => contents_of(request)],
        ),
        ProviderKind::OllamaCompatible => JsonView::Object(
            map![
                "model"@ => model_of(request, configured),
                "prompt"@ => JsonView::Text(prompt_of(request)),
                "stream"@ => member_or(request, "stream"@, JsonView::Bool(false)),
            ],
        ),
    }
}

/// The headers that authorize a request to a provider with this key.
pub open spec fn authorization_for(
    kind: ProviderKind,
    api_key: Option<Seq<char>>,
    version: Option<Seq<char>>,
) -> Seq<(Seq<char>, Seq<char>)> {
    match api_key {
        Some(key) => match kind {
            ProviderKind::AnthropicCompatible => seq![
                ("x-api-key"@, key),
                ("anthropic-version"@, settings::string_setting(version, "2023-06-01"@)),
            ],
            ProviderKind::GeminiCompatible => seq![("x-goog-api-key"@, key)],
            ProviderKind::LocalHttp | ProviderKind::OllamaCompatible => Seq::empty(),
            _ => seq![("authorization"@, "Bearer "@ + key)],
        },
        None => Seq::empty(),
    }
}

/// What is answered of a provider's answer.
pub open spec fn answer_of(
    kind: ProviderKind,
    success: bool,
    status: u16,
    body: JsonView,
) -> JsonView {
    JsonView::Object(
        map![
            "status"@ => JsonView::Text(if success { "success"@ } else { "error"@ }),
            "provider"@ => JsonView::Text(kind_name(kind)),
            "upstream_status"@ => JsonView::Int(status as int),
            "response"@ => body,
        ],
    )
}

impl ProviderKind {
    /// The name under which the kind is reported.
    pub fn name(&self) -> (r: &'static str)
        ensures
            r@ == kind_name(*self),
    {
        match self {
            ProviderKind::GenericHttp => "generic-http",
            ProviderKind::OpenAiCompatible => "openai-compatible",
            ProviderKind::AnthropicCompatible => "anthropic-compatible",
            ProviderKind::CohereCompatible => "cohere-compatible",
            ProviderKind::GeminiCompatible => "gemini-compatible",
            ProviderKind::MistralCompatible => "mistral-compatible",
            ProviderKind::OllamaCompatible => "ollama-compatible",
            ProviderKind::LocalHttp => "local-http",
        }
    }

    /// The kind that a setting names.
    pub fn from_setting(value: Option<&str>) -> (r: ProviderKind)
        ensures
            r == kind_named(
                text::lower(settings::string_setting(text::opt_str_view(value), "generic-http"@)),
            ),
    {
        let setting = settings::env_string(value, "generic-http");
        let lowered = text::to_lower(setting.as_str());
        let name = lowered.as_str();
        if text::text_eq(name, "openai") || text::text_eq(name, "openai-compatible") {
            ProviderKind::OpenAiCompatible
        } else if text::text_eq(name, "anthropic") || text::text_eq(name, "anthropic-compatible") {
            ProviderKind::AnthropicCompatible
        } else if text::text_eq(name, "cohere") || text::text_eq(name, "cohere-compatible") {
            ProviderKind::CohereCompatible
        } else if text::text_eq(name, "gemini") || text::text_eq(name, "google") || text::text_eq(
            name,
            "gemini-compatible",
        ) {
            ProviderKind::GeminiCompatible
        } else if text::text_eq(name, "mistral") || text::text_eq(name, "mistral-compatible") {
            ProviderKind::MistralCompatible
        } else if text::text_eq(name, "ollama") || text::text_eq(name, "ollama-compatible") {
            ProviderKind::OllamaCompatible
        } else if text::text_eq(name, "local") || text::text_eq(name, "local-http") {
            ProviderKind::LocalHttp
        } else {
            ProviderKind::GenericHttp
        }
    }
}

/// The member of a request, or a default.
fn take_member(request: &Json, name: &str, default: Json) -> (r: Json)
    ensures
        r@ == member_or(request@, name@, default@),
{
    match request.get(name) {
        Some(value) => value.copy(),
        None => default,
    }
}

/// The prompt of a request, or nothing.
fn take_prompt(request: &Json) -> (r: String)
    ensures
        r@ == prompt_of(request@),
{
    match request.get_text("prompt") {
        Some(prompt) => prompt.to_string(),
        None => String::new(),
    }
}

/// The model that a request asks for, else the configured one, else the default.
fn take_model(request: &Json, configured: Option<&str>) -> (r: Json)
    ensures
        r@ == model_of(request@, text::opt_str_view(configured)),
{
    let default = match configured {
        Some(name) => json::text_value(name),
        None => json::text_value("default"),
    };
    take_member(request, "model", default)
}

/// The messages of a request, else its prompt as one message of the user.
fn take_messages(request: &Json) -> (r: Json)
    ensures
        r@ == messages_of(request@),
{
    let prompt = take_prompt(request);
    let mut message = JsonObject::new();
    message.put("role", json::text_value("user"));
    message.put("content", json::text_value(prompt.as_str()));
    take_member(request, "messages", json::one_item(Json::Object(message)))
}

/// The contents of a request, else its prompt as one part.
fn take_contents(request: &Json) -> (r: Json)
    ensures
        r@ == contents_of(request@),
{
    let prompt = take_prompt(request);
    let mut part = JsonObject::new();
    part.put("text", json::text_value(prompt.as_str()));
    let mut content = JsonObject::new();
    content.put("parts", json::one_item(Json::Object(part)));
    take_member(request, "contents", json::one_item(Json::Object(content)))
}

impl ModelProvider {
    /// A provider at an endpoint.
    pub fn new(endpoint: String, api_key: Option<String>, kind: ProviderKind) -> (r: ModelProvider)
        ensures
            r.endpoint@ == endpoint@,
            text::opt_view(r.api_key) == text::opt_view(api_key),
            r.kind == kind,
    {
        ModelProvider { endpoint, api_key, kind }
    }

    /// The configured provider: none without an endpoint.
    pub fn from_settings(
        endpoint: Option<&str>,
        api_key: Option<&str>,
        kind: Option<&str>,
    ) -> (r: Option<ModelProvider>)
        ensures
            match r {
                Some(provider) => endpoint is Some && endpoint->0@.len() > 0
                    && provider.endpoint@ == endpoint->0@ && text::opt_view(provider.api_key) == (
                if api_key is Some && api_key->0@.len() > 0 {
                    Some(api_key->0@)
                } else {
                    None
                }) && provider.kind == kind_named(
                    text::lower(
                        settings::string_setting(text::opt_str_view(kind), "generic-http"@),
                    ),
                ),
                None => endpoint is None || endpoint->0@.len() == 0,
            },
    {
        match endpoint {
            Some(url) => {
                if url.is_empty() {
                    return None;
                }
                let key = match api_key {
                    Some(key) => if key.is_empty() {
                        None
                    } else {
                        Some(key.to_string())
                    },
                    None => None,
                };
                Some(ModelProvider::new(url.to_string(), key, ProviderKind::from_setting(kind)))
            },
            None => None,
        }
    }

    /// The request in the shape that the provider takes.
    pub fn normalize_payload(&self, request: &Json, model_name: Option<&str>) -> (r: Json)
        ensures
            r@ == payload_for(self.kind, request@, text::opt_str_view(model_name)),
    {
        match self.kind {
            ProviderKind::GenericHttp | ProviderKind::LocalHttp => request.copy(),
            ProviderKind::OpenAiCompatible | ProviderKind::MistralCompatible
            | ProviderKind::AnthropicCompatible => {
                let mut body = JsonObject::new();
                body.put("model", take_model(request, model_name));
                body.put("messages", take_messages(request));
                body.put("max_tokens", take_member(request, "max_tokens", Json::Unsigned(256)));
                Json::Object(body)
            },
            ProviderKind::CohereCompatible => {
                let prompt = take_prompt(request);
                let mut body = JsonObject::new();
                body.put("model", take_model(request, model_name));
                body.put(
                    "message",
                    take_member(request, "message", json::text_value(prompt.as_str())),
                );
                body.put("max_tokens", take_member(request, "max_tokens", Json::Unsigned(256)));
                Json::Object(body)
            },
            ProviderKind::GeminiCompatible => {
                let mut body = JsonObject::new();
                body.put("contents", take_contents(request));
                Json::Object(body)
            },
            ProviderKind::OllamaCompatible => {
                let prompt = take_prompt(request);
                let mut body = JsonObject::new();
                body.put("model", take_model(request, model_name));
                body.put("prompt", json::text_value(prompt.as_str()));
                body.put("stream", take_member(request, "stream", Json::Bool(false)));
                Json::Object(body)
            },
        }
    }

    /// The headers that authorize a request to the provider.
    pub fn authorization(&self, anthropic_version: Option<&str>) -> (r: Vec<(String, String)>)
        ensures
            r@.map_values(|pair: (String, String)| (pair.0@, pair.1@)) == authorization_for(
                self.kind,
                text::opt_view(self.api_key),
                text::opt_str_view(anthropic_version),
            ),
    {
        let ghost goal = authorization_for(
            self.kind,
            text::opt_view(self.api_key),
            text::opt_str_view(anthropic_version),
        );
        let mut out: Vec<(String, String)> = Vec::new();
        if let Some(key) = &self.api_key {
            match self.kind {
                ProviderKind::AnthropicCompatible => {
                    out.push(("x-api-key".to_string(), key.clone()));
                    out.push(
                        (
                            "anthropic-version".to_string(),
                            settings::env_string(anthropic_version, "2023-06-01"),
                        ),
                    );
                },
                ProviderKind::GeminiCompatible => {
                    out.push(("x-goog-api-key".to_string(), key.clone()));
                },
                ProviderKind::LocalHttp | ProviderKind::OllamaCompatible => {},
                _ => {
                    let mut value = "Bearer ".to_string();
                    value.append(key.as_str());
                    out.push(("authorization".to_string(), value));
                },
            }
        }
        assert(out@.map_values(|pair: (String, String)| (pair.0@, pair.1@)) =~= goal);
        out
    }
}

/// What is answered of a provider's answer.
pub fn provider_answer(kind: ProviderKind, success: bool, status: u16, body: Json) -> (r: Json)
    ensures
        r@ == answer_of(kind, success, status, body@),
{
    let mut answer = JsonObject::new();
    answer.put(
        "status",
        json::text_value(
            if success {
                "success"
            } else {
                "error"
            },
        ),
    );
    answer.put("provider", json::text_value(kind.name()));
    answer.put("upstream_status", Json::Unsigned(status as u64));
    answer.put("response", body);
    Json::Object(answer)
}

/// A provider's own name always selects it again.
pub proof fn law_kind_names_round_trip(kind: ProviderKind)
    ensures
        kind_named(kind_name(kind)) == kind,
{
    reveal_strlit("openai");
    reveal_strlit("openai-compatible");
    reveal_strlit("anthropic");
    reveal_strlit("anthropic-compatible");
    reveal_strlit("cohere");
    reveal_strlit("cohere-compatible");
    reveal_strlit("gemini");
    reveal_strlit("google");
    reveal_strlit("gemini-compatible");
    reveal_strlit("mistral");
    reveal_strlit("mistral-compatible");
    reveal_strlit("ollama");
    reveal_strlit("ollama-compatible");
    reveal_strlit("local");
    reveal_strlit("local-http");
    reveal_strlit("generic-http");
    let name = kind_name(kind);
    assert("generic-http"@[0] == 'g' && "gemini"@[0] == 'g' && "generic-http"@.len() == 12);
    assert("generic-http"@[1] == 'e' && "google"@[1] == 'o');
    assert("generic-http"@.len() != "gemini"@.len() && "generic-http"@.len() != "google"@.len()
        && "generic-http"@.len() != "gemini-compatible"@.len());
    assert("openai-compatible"@[1] == 'p' && "anthropic-compatible"@[0] == 'a');
    assert("mistral-compatible"@[0] == 'm' && "ollama-compatible"@[1] == 'l' && "local-http"@[0]
        == 'l' && "cohere-compatible"@[0] == 'c' && "gemini-compatible"@[0] == 'g');
    assert("openai"@[0] == 'o' && "anthropic"@[0] == 'a' && "cohere"@[0] == 'c' && "mistral"@[0]
        == 'm' && "ollama"@[0] == 'o' && "local"@[0] == 'l' && "google"@[0] == 'g');
    assert("openai-compatible"@[0] == 'o' && "ollama-compatible"@[0] == 'o' && "openai"@[1] == 'p'
        && "ollama"@[1] == 'l');
}

/// A provider of the plain kinds gets the request as it came.
pub proof fn law_plain_providers_get_the_request(
    request: JsonView,
    configured: Option<Seq<char>>,
)
    ensures
        payload_for(ProviderKind::GenericHttp, request, configured) == request,
        payload_for(ProviderKind::LocalHttp, request, configured) == request,
{
}

/// The local kinds are never sent the key.
pub proof fn law_local_providers_get_no_key(
    api_key: Option<Seq<char>>,
    version: Option<Seq<char>>,
)
    ensures
        authorization_for(ProviderKind::LocalHttp, api_key, version).len() == 0,
        authorization_for(ProviderKind::OllamaCompatible, api_key, version).len() == 0,
{
}

} // verus!
