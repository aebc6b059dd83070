//! OpenID Connect: the configuration of a provider, which keys and algorithms
//! are accepted, when keys are fetched again, and how a token is verified.
use vstd::prelude::*;
use crate::crawl;
use crate::ip;
use crate::json;
use crate::json::{Json, JsonView};
use crate::outside;
use crate::outside::{UrlParts, UrlView};
use crate::settings;
use crate::text;

verus! {

/// Why a token was not accepted.
#[derive(Debug)]
pub enum OidcError {
    Unauthorized,
    Unavailable(String),
}

/// Why a token was not accepted.
pub ghost enum ErrorView {
    Unauthorized,
    Unavailable(Seq<char>),
}

impl View for OidcError {
    type V = ErrorView;

    open spec fn view(&self) -> ErrorView {
        match self {
            OidcError::Unauthorized => ErrorView::Unauthorized,
            OidcError::Unavailable(message) => ErrorView::Unavailable(message@),
        }
    }
}

/// The largest document that is taken from a provider, in bytes.
pub const MAX_PROVIDER_DOCUMENT_BYTES: u64 = 1_048_576;

/// How long, in milliseconds, a forced fetch keeps another one away.
pub const FORCED_REFRESH_PAUSE: u64 = 5_000;

/// The signing algorithms by name.
pub open spec fn algorithm_names() -> Seq<Seq<char>> {
    seq![
        "HS256"@,
        "HS384"@,
        "HS512"@,
        "ES256"@,
        "ES384"@,
        "RS256"@,
        "RS384"@,
        "RS512"@,
        "PS256"@,
        "PS384"@,
        "PS512"@,
        "EdDSA"@,
    ]
}

/// The algorithms whose key is a shared secret.
pub open spec fn symmetric_names() -> Seq<Seq<char>> {
    seq!["HS256"@, "HS384"@, "HS512"@]
}

pub open spec fn is_symmetric(name: Seq<char>) -> bool {
    symmetric_names().contains(name)
}

/// Every name is that of an algorithm.
pub open spec fn all_known(names: Seq<Seq<char>>) -> bool {
    forall|i: int| 0 <= i < names.len() ==> algorithm_names().contains(#[trigger] names[i])
}

/// No name is that of an algorithm with a shared secret.
pub open spec fn none_symmetric(names: Seq<Seq<char>>) -> bool {
    forall|i: int| 0 <= i < names.len() ==> !is_symmetric(#[trigger] names[i])
}

/// The algorithms that a setting lists: known ones, some, and none with a
/// shared secret.
pub open spec fn algorithms_of(setting: Seq<char>) -> Result<Seq<Seq<char>>, Seq<char>> {
    let names = text::listed(setting);
    if !all_known(names) {
        Err("InvalidAlgorithmName"@)
    } else if names.len() == 0 || !none_symmetric(names) {
        Err("ADMIN_UI_OIDC_ALLOWED_ALGORITHMS must contain only asymmetric algorithms"@)
    } else {
        Ok(names)
    }
}

/// Whether a name is that of an algorithm.
fn known_algorithm(name: &str) -> (r: bool)
    ensures
        r == algorithm_names().contains(name@),
{
    let names = [
        "HS256",
        "HS384",
        "HS512",
        "ES256",
        "ES384",
        "RS256",
        "RS384",
        "RS512",
        "PS256",
        "PS384",
        "PS512",
        "EdDSA",
    ];
    assert(text::str_views(names@) =~= algorithm_names());
    text::is_one_of(name, names.as_slice())
}

/// Whether an algorithm's key is a shared secret.
pub fn symmetric_algorithm(name: &str) -> (r: bool)
    ensures
        r == is_symmetric(name@),
{
    let names = ["HS256", "HS384", "HS512"];
    assert(text::str_views(names@) =~= symmetric_names());
    text::is_one_of(name, names.as_slice())
}

/// The algorithms that a setting lists.
pub fn parse_algorithms(setting: &str) -> (r: Result<Vec<String>, String>)
    ensures
        match r {
            Ok(names) => algorithms_of(setting@) == Ok::<Seq<Seq<char>>, Seq<char>>(
                text::views(names@),
            ),
            Err(message) => algorithms_of(setting@) == Err::<Seq<Seq<char>>, Seq<char>>(message@),
        },
{
    let names = text::list_entries(setting);
    let ghost views = text::views(names@);
    assert(views.len() == names@.len());
    let mut symmetric = false;
    let mut i: usize = 0;
    while i < names.len()
        invariant
            i <= names@.len(),
            views == text::views(names@),
            views == text::listed(setting@),
            forall|j: int| 0 <= j < i ==> algorithm_names().contains(#[trigger] views[j]),
            !symmetric ==> forall|j: int| 0 <= j < i ==> !is_symmetric(#[trigger] views[j]),
            symmetric ==> exists|j: int| 0 <= j < i && is_symmetric(#[trigger] views[j]),
        decreases names@.len() - i,
    {
        assert(views[i as int] == names@[i as int]@);
        if !known_algorithm(names[i].as_str()) {
            assert(!algorithm_names().contains(views[i as int]));
            return Err("InvalidAlgorithmName".to_string());
        }
        if symmetric_algorithm(names[i].as_str()) {
            assert(is_symmetric(views[i as int]));
            symmetric = true;
        }
        i += 1;
    }
    if names.len() == 0 || symmetric {
        return Err(
            "ADMIN_UI_OIDC_ALLOWED_ALGORITHMS must contain only asymmetric algorithms".to_string(),
        );
    }
    Ok(names)
}

/// The host without the brackets in which a URL writes an IPv6 address.
pub open spec fn without_brackets(host: Seq<char>) -> Seq<char> {
    if host.len() >= 2 && host[0] == '[' && host.last() == ']' {
        host.subrange(1, host.len() - 1)
    } else {
        host
    }
}

/// The host without the brackets in which a URL writes an IPv6 address.
fn strip_brackets(host: &str) -> (r: String)
    ensures
        r@ == without_brackets(host@),
{
    let chars = text::chars_of(host);
    let n = chars.len();
    if n >= 2 && chars[0] == '[' && chars[n - 1] == ']' {
        text::string_between(chars.as_slice(), 1, n - 1)
    } else {
        host.to_string()
    }
}

/// The host is this machine itself.
pub open spec fn is_loopback_host(host: Option<Seq<char>>) -> bool {
    match host {
        Some(name) => text::same_ignoring_case(name, "localhost"@) || (ip::parsed_ip(
            without_brackets(name),
        ) matches Some(address) && ip::is_loopback(address)),
        None => false,
    }
}

/// What is wrong with the URL of a provider.
pub open spec fn provider_fault(
    name: Seq<char>,
    url: Result<UrlView, Seq<char>>,
    allow_http: bool,
) -> Option<Seq<char>> {
    match url {
        Err(message) => Some(name + " is invalid: "@ + message),
        Ok(parts) => if parts.scheme != "https"@ && !(parts.scheme == "http"@ && (allow_http
            || is_loopback_host(parts.host))) {
            Some(
                name
                    + " must use HTTPS (HTTP is accepted only for loopback or explicit test configuration)"@,
            )
        } else if parts.username.len() > 0 || parts.password is Some || parts.host is None {
            Some(name + " must be an absolute provider URL without embedded credentials"@)
        } else {
            None
        },
    }
}

/// What is wrong with the parsed URL of a provider.
pub fn check_provider_url(name: &str, url: &UrlParts, allow_http: bool) -> (r: Option<String>)
    ensures
        text::opt_view(r) == provider_fault(name@, Ok(url@), allow_http),
{
    let loopback = match &url.host {
        Some(host) => {
            text::eq_ignoring_case(host.as_str(), "localhost") || match ip::parse_ip(
                strip_brackets(host.as_str()).as_str(),
            ) {
                Some(address) => ip::is_loopback_ip(&address),
                None => false,
            }
        },
        None => false,
    };
    let scheme = url.scheme.as_str();
    if !text::text_eq(scheme, "https") && !(text::text_eq(scheme, "http") && (allow_http
        || loopback)) {
        let mut message = name.to_string();
        message.append(
            " must use HTTPS (HTTP is accepted only for loopback or explicit test configuration)",
        );
        return Some(message);
    }
    if !url.username.as_str().is_empty() || url.password.is_some() || url.host.is_none() {
        let mut message = name.to_string();
        message.append(" must be an absolute provider URL without embedded credentials");
        return Some(message);
    }
    None
}

/// The URL of a provider, or what is wrong with it.
pub open spec fn provider_url(name: Seq<char>, value: Seq<char>, allow_http: bool) -> Result<
    UrlView,
    Seq<char>,
> {
    match provider_fault(name, outside::url_of(value), allow_http) {
        Some(message) => Err(message),
        None => outside::url_of(value),
    }
}

/// The URL of a provider, or what is wrong with it.
pub fn parse_provider_url(name: &str, value: &str, allow_http: bool) -> (r: Result<
    UrlParts,
    String,
>)
    ensures
        crawl::parsed_view(r) == provider_url(name@, value@, allow_http),
{
    match outside::parse_url(value) {
        Err(error) => {
            let mut message = name.to_string();
            message.append(" is invalid: ");
            message.append(error.as_str());
            Err(message)
        },
        Ok(url) => match check_provider_url(name, &url, allow_http) {
            Some(message) => Err(message),
            None => Ok(url),
        },
    }
}

/// The settings of a provider as they were found.
#[derive(Debug)]
pub struct OidcSettings {
    pub enabled: Option<String>,
    pub mode: Option<String>,
    pub issuer: Option<String>,
    pub audience: Option<String>,
    pub allow_http: Option<String>,
    pub discovery_url: Option<String>,
    pub jwks_url: Option<String>,
    pub algorithms: Option<String>,
    pub timeout_seconds: Option<String>,
    pub cache_seconds: Option<String>,
    pub clock_skew_seconds: Option<String>,
}

/// The texts of the settings.
pub ghost struct SettingsView {
    pub enabled: Option<Seq<char>>,
    pub mode: Option<Seq<char>>,
    pub issuer: Option<Seq<char>>,
    pub audience: Option<Seq<char>>,
    pub allow_http: Option<Seq<char>>,
    pub discovery_url: Option<Seq<char>>,
    pub jwks_url: Option<Seq<char>>,
    pub algorithms: Option<Seq<char>>,
    pub timeout_seconds: Option<Seq<char>>,
    pub cache_seconds: Option<Seq<char>>,
    pub clock_skew_seconds: Option<Seq<char>>,
}

impl View for OidcSettings {
    type V = SettingsView;

    open spec fn view(&self) -> SettingsView {
        SettingsView {
            enabled: text::opt_view(self.enabled),
            mode: text::opt_view(self.mode),
            issuer: text::opt_view(self.issuer),
            audience: text::opt_view(self.audience),
            allow_http: text::opt_view(self.allow_http),
            discovery_url: text::opt_view(self.discovery_url),
            jwks_url: text::opt_view(self.jwks_url),
            algorithms: text::opt_view(self.algorithms),
            timeout_seconds: text::opt_view(self.timeout_seconds),
            cache_seconds: text::opt_view(self.cache_seconds),
            clock_skew_seconds: text::opt_view(self.clock_skew_seconds),
        }
    }
}

/// A provider that is configured.
#[derive(Debug)]
pub struct OidcConfig {
    pub issuer: String,
    pub audience: String,
    pub discovery_url: String,
    pub explicit_jwks_url: Option<String>,
    pub allowed_algorithms: Vec<String>,
    pub cache_seconds: u64,
    pub leeway_seconds: u64,
    pub timeout_seconds: u64,
    pub allow_http: bool,
}

/// What a provider is configured with.
pub ghost struct ConfigView {
    pub issuer: Seq<char>,
    pub audience: Seq<char>,
    pub discovery_url: Seq<char>,
    pub explicit_jwks_url: Option<Seq<char>>,
    pub allowed_algorithms: Seq<Seq<char>>,
    pub cache_seconds: int,
    pub leeway_seconds: int,
    pub timeout_seconds: int,
    pub allow_http: bool,
}

impl View for OidcConfig {
    type V = ConfigView;

    open spec fn view(&self) -> ConfigView {
        ConfigView {
            issuer: self.issuer@,
            audience: self.audience@,
            discovery_url: self.discovery_url@,
            explicit_jwks_url: text::opt_view(self.explicit_jwks_url),
            allowed_algorithms: text::views(self.allowed_algorithms@),
            cache_seconds: self.cache_seconds as int,
            leeway_seconds: self.leeway_seconds as int,
            timeout_seconds: self.timeout_seconds as int,
            allow_http: self.allow_http,
        }
    }
}

/// A setting that must hold something, trimmed.
pub open spec fn required_setting(name: Seq<char>, value: Option<Seq<char>>) -> Result<
    Seq<char>,
    Seq<char>,
> {
    match value {
        Some(s) if !text::is_blank(s) => Ok(text::trimmed(s)),
        _ => Err(name + " is required when OIDC SSO is enabled"@),
    }
}

/// A setting that must hold something, trimmed.
pub fn required_env(name: &str, value: Option<&str>) -> (r: Result<String, String>)
    ensures
        match r {
            Ok(s) => required_setting(name@, text::opt_str_view(value)) == Ok::<
                Seq<char>,
                Seq<char>,
            >(s@),
            Err(message) => required_setting(name@, text::opt_str_view(value)) == Err::<
                Seq<char>,
                Seq<char>,
            >(message@),
        },
{
    if let Some(s) = value {
        let solid = text::trim(s);
        if !solid.as_str().is_empty() {
            return Ok(solid);
        }
    }
    let mut message = name.to_string();
    message.append(" is required when OIDC SSO is enabled");
    Err(message)
}

/// The provider is in use.
pub open spec fn is_enabled(found: SettingsView) -> bool {
    settings::flag_setting(found.enabled, false) && text::same_ignoring_case(
        settings::string_setting(found.mode, "oidc"@),
        "oidc"@,
    )
}

/// The address of the discovery document: the configured one, else the usual
/// one below the issuer.
pub open spec fn discovery_of(found: SettingsView, issuer: Seq<char>, allow_http: bool) -> Result<
    UrlView,
    Seq<char>,
> {
    match settings::solid_setting(found.discovery_url) {
        Some(value) => provider_url(
            "ADMIN_UI_OIDC_DISCOVERY_URL"@,
            text::trimmed(value),
            allow_http,
        ),
        None => provider_url(
            "ADMIN_UI_OIDC_ISSUER"@,
            crawl::without_end_slashes(issuer) + "/.well-known/openid-configuration"@,
            allow_http,
        ),
    }
}

/// The address of the keys, where it is configured.
pub open spec fn jwks_of(found: SettingsView, allow_http: bool) -> Result<
    Option<Seq<char>>,
    Seq<char>,
> {
    match settings::solid_setting(found.jwks_url) {
        Some(value) => match provider_url(
            "ADMIN_UI_OIDC_JWKS_URL"@,
            text::trimmed(value),
            allow_http,
        ) {
            Ok(url) => Ok(Some(url.text)),
            Err(message) => Err(message),
        },
        None => Ok(None),
    }
}

/// The algorithms that are accepted where none are configured.
pub open spec fn default_algorithms() -> Seq<char> {
    "RS256,RS384,RS512,PS256,PS384,PS512,ES256,ES384,EdDSA"@
}

/// The issuer may be used: its URL is in order, without a query or a fragment.
pub open spec fn issuer_fault(issuer: Seq<char>, allow_http: bool) -> Option<Seq<char>> {
    match provider_url("ADMIN_UI_OIDC_ISSUER"@, issuer, allow_http) {
        Err(message) => Some(message),
        Ok(url) => if url.query is Some || url.fragment is Some {
            Some("ADMIN_UI_OIDC_ISSUER cannot contain a query string or fragment"@)
        } else {
            None
        },
    }
}

/// The provider that the settings configure: none where it is not in use, or
/// the first thing that is wrong with them.
pub open spec fn config_of(found: SettingsView) -> Result<Option<ConfigView>, Seq<char>> {
    let allow_http = settings::flag_setting(found.allow_http, false);
    if !is_enabled(found) {
        Ok(None)
    } else {
        match (
            required_setting("ADMIN_UI_OIDC_ISSUER"@, found.issuer),
            required_setting("ADMIN_UI_OIDC_AUDIENCE"@, found.audience),
        ) {
            (Err(message), _) => Err(message),
            (_, Err(message)) => Err(message),
            (Ok(issuer), Ok(audience)) => match issuer_fault(issuer, allow_http) {
                Some(message) => Err(message),
                None => match (
                    discovery_of(found, issuer, allow_http),
                    jwks_of(found, allow_http),
                    algorithms_of(settings::string_setting(found.algorithms, default_algorithms())),
                ) {
                    (Err(message), _, _) => Err(message),
                    (_, Err(message), _) => Err(message),
                    (_, _, Err(message)) => Err(message),
                    (Ok(discovery), Ok(jwks), Ok(algorithms)) => Ok(
                        Some(
                            ConfigView {
                                issuer,
                                audience,
                                discovery_url: discovery.text,
                                explicit_jwks_url: jwks,
                                allowed_algorithms: algorithms,
                                cache_seconds: settings::clamped(
                                    settings::number_setting(
                                        found.cache_seconds,
                                        u64::MAX as nat,
                                        300,
                                    ) as int,
                                    30,
                                    86_400,
                                ),
                                leeway_seconds: settings::clamped(
                                    settings::number_setting(
                                        found.clock_skew_seconds,
                                        u64::MAX as nat,
                                        60,
                                    ) as int,
                                    0,
                                    300,
                                ),
                                timeout_seconds: settings::clamped(
                                    settings::number_setting(
                                        found.timeout_seconds,
                                        u64::MAX as nat,
                                        10,
                                    ) as int,
                                    2,
                                    60,
                                ),
                                allow_http,
                            },
                        ),
                    ),
                },
            },
        }
    }
}

/// The meaning of a configuration.
pub open spec fn config_view(r: Result<Option<OidcConfig>, String>) -> Result<
    Option<ConfigView>,
    Seq<char>,
> {
    match r {
        Ok(Some(config)) => Ok(Some(config@)),
        Ok(None) => Ok(None),
        Err(message) => Err(message@),
    }
}

/// Checks the issuer.
fn check_issuer(issuer: &str, allow_http: bool) -> (r: Option<String>)
    ensures
        text::opt_view(r) == issuer_fault(issuer@, allow_http),
{
    match parse_provider_url("ADMIN_UI_OIDC_ISSUER", issuer, allow_http) {
        Err(message) => Some(message),
        Ok(url) => if url.query.is_some() || url.fragment.is_some() {
            Some("ADMIN_UI_OIDC_ISSUER cannot contain a query string or fragment".to_string())
        } else {
            None
        },
    }
}

/// The address of the discovery document.
fn find_discovery(found: &OidcSettings, issuer: &str, allow_http: bool) -> (r: Result<
    UrlParts,
    String,
>)
    ensures
        crawl::parsed_view(r) == discovery_of(found@, issuer@, allow_http),
{
    match settings::env_solid(text::borrowed(&found.discovery_url)) {
        Some(value) => {
            let solid = text::trim(value.as_str());
            parse_provider_url("ADMIN_UI_OIDC_DISCOVERY_URL", solid.as_str(), allow_http)
        },
        None => {
            let mut usual = crawl::trim_end_slashes(issuer);
            usual.append("/.well-known/openid-configuration");
            parse_provider_url("ADMIN_UI_OIDC_ISSUER", usual.as_str(), allow_http)
        },
    }
}

/// The meaning of the address of the keys.
pub open spec fn jwks_view(r: Result<Option<String>, String>) -> Result<
    Option<Seq<char>>,
    Seq<char>,
> {
    match r {
        Ok(url) => Ok(text::opt_view(url)),
        Err(message) => Err(message@),
    }
}

/// The address of the keys, where it is configured.
fn find_jwks(found: &OidcSettings, allow_http: bool) -> (r: Result<Option<String>, String>)
    ensures
        jwks_view(r) == jwks_of(found@, allow_http),
{
    match settings::env_solid(text::borrowed(&found.jwks_url)) {
        Some(value) => {
            let solid = text::trim(value.as_str());
            match parse_provider_url("ADMIN_UI_OIDC_JWKS_URL", solid.as_str(), allow_http) {
                Ok(url) => Ok(Some(url.text)),
                Err(message) => Err(message),
            }
        },
        None => Ok(None),
    }
}

impl OidcConfig {
    /// The provider that the settings configure.
    pub fn from_settings(found: &OidcSettings) -> (r: Result<Option<OidcConfig>, String>)
        ensures
            config_view(r) == config_of(found@),
            r matches Ok(Some(config)) ==> config.leeway_seconds <= outside::MAX_LEEWAY_SECONDS,
    {
        let enabled = settings::env_bool(text::borrowed(&found.enabled), false)
            && text::eq_ignoring_case(
            settings::env_string(text::borrowed(&found.mode), "oidc").as_str(),
            "oidc",
        );
        if !enabled {
            return Ok(None);
        }
        let issuer = match required_env("ADMIN_UI_OIDC_ISSUER", text::borrowed(&found.issuer)) {
            Ok(s) => s,
            Err(message) => {
                return Err(message);
            },
        };
        let audience = match required_env("ADMIN_UI_OIDC_AUDIENCE", text::borrowed(&found.audience)) {
            Ok(s) => s,
            Err(message) => {
                return Err(message);
            },
        };
        let allow_http = settings::env_bool(text::borrowed(&found.allow_http), false);
        if let Some(message) = check_issuer(issuer.as_str(), allow_http) {
            return Err(message);
        }
        let discovery = match find_discovery(found, issuer.as_str(), allow_http) {
            Ok(url) => url,
            Err(message) => {
                return Err(message);
            },
        };
        let explicit_jwks_url = match find_jwks(found, allow_http) {
            Ok(url) => url,
            Err(message) => {
                return Err(message);
            },
        };
        let listed = settings::env_string(
            text::borrowed(&found.algorithms),
            "RS256,RS384,RS512,PS256,PS384,PS512,ES256,ES384,EdDSA",
        );
        let allowed_algorithms = match parse_algorithms(listed.as_str()) {
            Ok(names) => names,
            Err(message) => {
                return Err(message);
            },
        };
        Ok(
            Some(
                OidcConfig {
                    issuer,
                    audience,
                    discovery_url: discovery.text,
                    explicit_jwks_url,
                    allowed_algorithms,
                    cache_seconds: settings::env_u64_within(
                        text::borrowed(&found.cache_seconds),
                        300,
                        30,
                        86_400,
                    ),
                    leeway_seconds: settings::env_u64_within(
                        text::borrowed(&found.clock_skew_seconds),
                        60,
                        0,
                        300,
                    ),
                    timeout_seconds: settings::env_u64_within(
                        text::borrowed(&found.timeout_seconds),
                        10,
                        2,
                        60,
                    ),
                    allow_http,
                },
            ),
        )
    }
}

/// A key of a provider: its JSON text, and what that says.
#[derive(Debug)]
pub struct ProviderKey {
    source: String,
    document: Json,
}

impl ProviderKey {
    /// The document is what the text writes.
    #[verifier::type_invariant]
    spec fn is_read(self) -> bool {
        outside::json_text(vstd::utf8::encode_utf8(self.source@)) == Some(self.document@)
    }

    /// The JSON text of the key.
    pub closed spec fn source(&self) -> Seq<char> {
        self.source@
    }

    /// What the text of the key says.
    pub closed spec fn document(&self) -> JsonView {
        self.document@
    }

    /// The key that a JSON text describes.
    pub fn read(source: &str) -> (r: Option<ProviderKey>)
        ensures
            match r {
                Some(key) => key.source() == source@ && outside::json_text(
                    vstd::utf8::encode_utf8(source@),
                ) == Some(key.document()),
                None => outside::json_text(vstd::utf8::encode_utf8(source@)) is None,
            },
    {
        match outside::parse_json(source.as_bytes()) {
            Some(document) => Some(ProviderKey { source: source.to_string(), document }),
            None => None,
        }
    }

    /// The same key once more.
    pub fn copy(&self) -> (r: ProviderKey)
        ensures
            r.source() == self.source(),
            r.document() == self.document(),
    {
        proof {
            use_type_invariant(self);
        }
        ProviderKey { source: self.source.clone(), document: self.document.copy() }
    }
}

/// The identifier of a key.
pub open spec fn kid_of(key: JsonView) -> Option<Seq<char>> {
    json::text_of(json::member(key, "kid"@))
}

/// The identifiers of keys.
pub open spec fn kids_of(keys: Seq<ProviderKey>) -> Seq<Option<Seq<char>>> {
    keys.map_values(|key: ProviderKey| kid_of(key.document()))
}

/// What is wrong with the keys of a provider: there are none, one has no
/// identifier, or two have the same.
pub open spec fn keys_fault(kids: Seq<Option<Seq<char>>>) -> Option<Seq<char>> {
    if kids.len() == 0 {
        Some("OIDC JWKS document did not contain keys"@)
    } else {
        first_kid_fault(kids, kids.len())
    }
}

/// The first thing that is wrong with the first `n` identifiers.
pub open spec fn first_kid_fault(kids: Seq<Option<Seq<char>>>, n: nat) -> Option<Seq<char>>
    decreases n,
{
    if n == 0 || n > kids.len() {
        None
    } else {
        match first_kid_fault(kids, (n - 1) as nat) {
            Some(message) => Some(message),
            None => if kids[n - 1] is None || kids[n - 1]->0.len() == 0 {
                Some("OIDC JWKS contained a key without a kid"@)
            } else if kids.take(n - 1).contains(kids[n - 1]) {
                Some("OIDC JWKS contained duplicate kid values"@)
            } else {
                None
            },
        }
    }
}

/// Refuses keys that cannot be told apart.
pub fn validate_jwks(keys: &Vec<ProviderKey>) -> (r: Result<(), OidcError>)
    ensures
        match r {
            Ok(_) => keys_fault(kids_of(keys@)) is None,
            Err(error) => keys_fault(kids_of(keys@)) is Some && error@ == ErrorView::Unavailable(
                keys_fault(kids_of(keys@))->0,
            ),
        },
{
    let ghost kids = kids_of(keys@);
    assert(kids.len() == keys@.len());
    if keys.len() == 0 {
        return Err(
            OidcError::Unavailable("OIDC JWKS document did not contain keys".to_string()),
        );
    }
    let mut seen: Vec<String> = Vec::new();
    let mut i: usize = 0;
    while i < keys.len()
        invariant
            i <= keys@.len(),
            kids == kids_of(keys@),
            kids.len() == keys@.len(),
            keys@.len() > 0,
            first_kid_fault(kids, i as nat) is None,
            seen@.len() == i,
            forall|j: int| 0 <= j < i ==> #[trigger] kids[j] == Some(seen@[j]@),
        decreases keys@.len() - i,
    {
        assert(kids[i as int] == kid_of(keys@[i as int].document()));
        let kid = match keys[i].document.get_text("kid") {
            Some(found) => if found.is_empty() {
                None
            } else {
                Some(found.to_string())
            },
            None => None,
        };
        match kid {
            None => {
                proof {
                    lemma_fault_stays(kids, (i + 1) as nat, kids.len());
                }
                return Err(
                    OidcError::Unavailable("OIDC JWKS contained a key without a kid".to_string()),
                );
            },
            Some(name) => {
                let repeated = text::list_has(&seen, name.as_str());
                proof {
                    let before = kids.take(i as int);
                    if repeated {
                        let k = choose|k: int| 0 <= k < seen@.len() && text::views(seen@)[k]
                            == name@;
                        assert(before[k] == Some(seen@[k]@));
                        assert(before.contains(kids[i as int]));
                    } else if before.contains(kids[i as int]) {
                        let k = choose|k: int| 0 <= k < before.len() && before[k]
                            == kids[i as int];
                        assert(text::views(seen@)[k] == seen@[k]@);
                        assert(kids[k] == Some(seen@[k]@));
                    }
                }
                if repeated {
                    proof {
                        lemma_fault_stays(kids, (i + 1) as nat, kids.len());
                    }
                    return Err(
                        OidcError::Unavailable(
                            "OIDC JWKS contained duplicate kid values".to_string(),
                        ),
                    );
                }
                seen.push(name);
            },
        }
        i += 1;
    }
    Ok(())
}

/// A fault among the first identifiers is the fault of all.
proof fn lemma_fault_stays(kids: Seq<Option<Seq<char>>>, n: nat, m: nat)
    requires
        n <= m <= kids.len(),
        first_kid_fault(kids, n) is Some,
    ensures
        first_kid_fault(kids, m) == first_kid_fault(kids, n),
    decreases m - n,
{
    if n < m {
        lemma_fault_stays(kids, n, (m - 1) as nat);
    }
}

/// The first key with an identifier.
pub open spec fn key_named(kids: Seq<Option<Seq<char>>>, kid: Seq<char>, n: nat) -> Option<int>
    decreases n,
{
    if n == 0 || n > kids.len() {
        None
    } else {
        match key_named(kids, kid, (n - 1) as nat) {
            Some(i) => Some(i),
            None => if kids[n - 1] == Some(kid) {
                Some(n - 1)
            } else {
                None
            },
        }
    }
}

/// The place of the first key with an identifier.
pub fn find_key(keys: &Vec<ProviderKey>, kid: &str) -> (r: Option<usize>)
    ensures
        match r {
            Some(i) => i < keys@.len() && key_named(kids_of(keys@), kid@, keys@.len()) == Some(
                i as int,
            ),
            None => key_named(kids_of(keys@), kid@, keys@.len()) is None,
        },
{
    let ghost kids = kids_of(keys@);
    let mut found: Option<usize> = None;
    let mut i: usize = 0;
    while i < keys.len()
        invariant
            i <= keys@.len(),
            kids == kids_of(keys@),
            match found {
                Some(at) => at < i && key_named(kids, kid@, i as nat) == Some(at as int),
                None => key_named(kids, kid@, i as nat) is None,
            },
        decreases keys@.len() - i,
    {
        assert(kids[i as int] == kid_of(keys@[i as int].document()));
        if found.is_none() {
            if let Some(name) = keys[i].document.get_text("kid") {
                if text::text_eq(name, kid) {
                    found = Some(i);
                }
            }
        }
        i += 1;
    }
    found
}

/// Why a key may not verify a signature.
#[derive(Debug, Clone, Copy, PartialEq, Eq, Structural)]
pub enum KeyFault {
    InvalidAlgorithm,
    InvalidKeyFormat,
}

/// The member is there and not null.
pub open spec fn present(key: JsonView, name: Seq<char>) -> Option<JsonView> {
    match json::member(key, name) {
        Some(JsonView::Null) => None,
        other => other,
    }
}

/// The kinds of keys that are made of a public and a private part.
pub open spec fn is_asymmetric_kind(kind: Option<Seq<char>>) -> bool {
    kind == Some("EC"@) || kind == Some("RSA"@) || kind == Some("OKP"@)
}

/// What keeps a key from verifying a signature of an algorithm.
pub open spec fn key_fault(key: JsonView, algorithm: Seq<char>) -> Option<KeyFault> {
    if !is_asymmetric_kind(json::text_of(json::member(key, "kty"@))) {
        Some(KeyFault::InvalidAlgorithm)
    } else if present(key, "alg"@) is Some && json::text_of(present(key, "alg"@)) != Some(
        algorithm,
    ) {
        Some(KeyFault::InvalidAlgorithm)
    } else if present(key, "use"@) is Some && json::text_of(present(key, "use"@)) != Some("sig"@) {
        Some(KeyFault::InvalidKeyFormat)
    } else {
        match present(key, "key_ops"@) {
            Some(JsonView::Array(items)) => if items.contains(JsonView::Text("verify"@)) {
                None
            } else {
                Some(KeyFault::InvalidKeyFormat)
            },
            Some(_) => Some(KeyFault::InvalidKeyFormat),
            None => None,
        }
    }
}

/// Whether a member is there with another text than the given one.
fn differs(key: &Json, name: &str, wanted: &str) -> (r: bool)
    ensures
        r == (present(key@, name@) is Some && json::text_of(present(key@, name@)) != Some(wanted@)),
{
    match key.get(name) {
        None => false,
        Some(Json::Null) => false,
        Some(value) => match value.as_text() {
            Some(s) => !text::text_eq(s, wanted),
            None => true,
        },
    }
}

/// Refuses a key that may not verify a signature of an algorithm.
pub fn validate_jwk(key: &Json, algorithm: &str) -> (r: Result<(), KeyFault>)
    ensures
        match r {
            Ok(_) => key_fault(key@, algorithm@) is None,
            Err(fault) => key_fault(key@, algorithm@) == Some(fault),
        },
{
    let asymmetric = match key.get_text("kty") {
        Some(kind) => text::text_eq(kind, "EC") || text::text_eq(kind, "RSA") || text::text_eq(
            kind,
            "OKP",
        ),
        None => false,
    };
    if !asymmetric || differs(key, "alg", algorithm) {
        return Err(KeyFault::InvalidAlgorithm);
    }
    if differs(key, "use", "sig") {
        return Err(KeyFault::InvalidKeyFormat);
    }
    match key.get("key_ops") {
        None => Ok(()),
        Some(Json::Null) => Ok(()),
        Some(Json::Array(items)) => if json::has_text(items, "verify") {
            Ok(())
        } else {
            Err(KeyFault::InvalidKeyFormat)
        },
        Some(_) => Err(KeyFault::InvalidKeyFormat),
    }
}

/// How the check of a signature came out.
#[derive(Debug)]
pub enum Decoded {
    Verified(Json),
    BadSignature,
    Refused,
}

/// How the check of a signature came out.
pub ghost enum DecodedView {
    Verified(JsonView),
    BadSignature,
    Refused,
}

impl View for Decoded {
    type V = DecodedView;

    open spec fn view(&self) -> DecodedView {
        match self {
            Decoded::Verified(claims) => DecodedView::Verified(claims@),
            Decoded::BadSignature => DecodedView::BadSignature,
            Decoded::Refused => DecodedView::Refused,
        }
    }
}

/// What the check of a signature amounts to, given what the signature library said.
pub open spec fn judged(decoded: Result<JsonView, bool>) -> DecodedView {
    match decoded {
        Ok(claims) => DecodedView::Verified(claims),
        Err(signature) => if signature {
            DecodedView::BadSignature
        } else {
            DecodedView::Refused
        },
    }
}

/// What the check of a signature amounts to, given what the signature library said.
pub fn judge(decoded: Result<Json, bool>) -> (r: Decoded)
    ensures
        r@ == judged(json::outcome_view(decoded)),
{
    match decoded {
        Ok(claims) => Decoded::Verified(claims),
        Err(signature) => if signature {
            Decoded::BadSignature
        } else {
            Decoded::Refused
        },
    }
}

/// The claims that a token must have.
pub open spec fn required_claims() -> Seq<Seq<char>> {
    seq!["exp"@, "iss"@, "aud"@]
}

/// How the check of a token against a key comes out at a moment.
pub open spec fn checked_at(
    config: ConfigView,
    token: Seq<char>,
    algorithm: Seq<char>,
    key: Seq<char>,
    now: u64,
) -> DecodedView {
    judged(
        outside::token_claims_of(
            token,
            key,
            algorithm,
            config.issuer,
            config.audience,
            required_claims(),
            config.leeway_seconds as u64,
            true,
            now,
        ),
    )
}

/// The key may verify a signature of the algorithm: nothing is wrong with it,
/// and it is long enough.
pub open spec fn may_verify(key: JsonView, algorithm: Seq<char>) -> bool {
    key_fault(key, algorithm) is None && (algorithm == "EdDSA"@ ==> outside::holds_edwards_point(
        key,
    ))
}

/// Whether a key may verify a signature of an algorithm.
pub fn is_verifier(key: &Json, algorithm: &str) -> (r: bool)
    ensures
        r == may_verify(key@, algorithm@),
{
    if validate_jwk(key, algorithm).is_err() {
        return false;
    }
    if !text::text_eq(algorithm, "EdDSA") {
        return true;
    }
    match key.get_text("x") {
        Some(x) => match outside::base64url_decode(x) {
            Some(bytes) => bytes.len() >= 32,
            None => false,
        },
        None => false,
    }
}

/// Checks a token against a key for the configured issuer and audience. A key
/// that may not verify signatures of the algorithm verifies nothing.
pub fn decode_with_key(
    config: &OidcConfig,
    token: &str,
    algorithm: &str,
    key: &ProviderKey,
) -> (r: Decoded)
    requires
        config.leeway_seconds <= outside::MAX_LEEWAY_SECONDS,
    ensures
        !may_verify(key.document(), algorithm@) ==> r@ == DecodedView::Refused,
        may_verify(key.document(), algorithm@) ==> exists|now: u64|
            r@ == #[trigger] checked_at(config@, token@, algorithm@, key.source(), now),
{
    proof {
        use_type_invariant(key);
    }
    if !is_verifier(&key.document, algorithm) {
        return Decoded::Refused;
    }
    let mut required: Vec<String> = Vec::new();
    required.push("exp".to_string());
    required.push("iss".to_string());
    required.push("aud".to_string());
    assert(text::views(required@) =~= required_claims());
    let decoded = outside::decode_claims(
        token,
        key.source.as_str(),
        algorithm,
        config.issuer.as_str(),
        config.audience.as_str(),
        &required,
        config.leeway_seconds,
        true,
    );
    let ghost now = choose|now: u64|
        json::outcome_view(decoded) == #[trigger] outside::token_claims_of(
            token@,
            key.source(),
            algorithm@,
            config.issuer@,
            config.audience@,
            required_claims(),
            config.leeway_seconds,
            true,
            now,
        );
    let verdict = judge(decoded);
    assert(verdict@ == checked_at(config@, token@, algorithm@, key.source(), now));
    verdict
}

/// The key identifier of a token that may be checked at all: its algorithm is
/// allowed and has no shared secret.
pub open spec fn admissible(
    header: Option<(Seq<char>, Option<Seq<char>>)>,
    allowed: Seq<Seq<char>>,
) -> Option<(Seq<char>, Seq<char>)> {
    match header {
        Some((algorithm, Some(kid))) => if allowed.contains(algorithm) && !is_symmetric(algorithm) {
            Some((algorithm, kid))
        } else {
            None
        },
        _ => None,
    }
}

/// The algorithm and the key identifier of a header that may be checked at all.
pub fn admit_header(header: &Option<(String, Option<String>)>, allowed: &Vec<String>) -> (r:
    Option<(String, String)>)
    ensures
        match r {
            Some((algorithm, kid)) => admissible(
                outside::header_view(*header),
                text::views(allowed@),
            ) == Some((algorithm@, kid@)),
            None => admissible(outside::header_view(*header), text::views(allowed@)) is None,
        },
{
    match header {
        Some((algorithm, Some(kid))) => {
            if text::list_has(allowed, algorithm.as_str()) && !symmetric_algorithm(
                algorithm.as_str(),
            ) {
                Some((algorithm.clone(), kid.clone()))
            } else {
                None
            }
        },
        _ => None,
    }
}

/// The algorithm and the key identifier of a token that may be checked at all.
pub fn admit_token(token: &str, allowed: &Vec<String>) -> (r: Option<(String, String)>)
    ensures
        match r {
            Some((algorithm, kid)) => admissible(
                outside::jwt_header_of(token@),
                text::views(allowed@),
            ) == Some((algorithm@, kid@)),
            None => admissible(outside::jwt_header_of(token@), text::views(allowed@)) is None,
        },
{
    let header = outside::token_header(token);
    admit_header(&header, allowed)
}

/// When the keys were fetched, in milliseconds.
#[derive(Debug, Clone, Copy)]
pub struct JwksCache {
    pub fetched_at: Option<u64>,
    pub last_forced_refresh: Option<u64>,
}

/// The milliseconds from one moment to a later one.
pub open spec fn passed(from: u64, now: u64) -> int {
    if from <= now {
        now - from
    } else {
        0
    }
}

/// The keys are missing, or as old as they may get.
pub open spec fn is_stale(cache: JwksCache, now: u64, ttl: u64) -> bool {
    match cache.fetched_at {
        Some(moment) => passed(moment, now) >= ttl,
        None => true,
    }
}

/// The keys are to be fetched: when they are stale, or by force unless that
/// was done a moment ago.
pub open spec fn must_fetch(cache: JwksCache, force: bool, now: u64, ttl: u64) -> bool {
    if force {
        match cache.last_forced_refresh {
            Some(moment) => passed(moment, now) >= FORCED_REFRESH_PAUSE,
            None => true,
        }
    } else {
        is_stale(cache, now, ttl)
    }
}

impl JwksCache {
    /// Nothing was fetched yet.
    pub fn new() -> (r: JwksCache)
        ensures
            r == (JwksCache { fetched_at: None, last_forced_refresh: None }),
    {
        JwksCache { fetched_at: None, last_forced_refresh: None }
    }

    /// Whether the keys are to be fetched.
    pub fn refresh_if_stale(&self, force: bool, now: u64, ttl: u64) -> (r: bool)
        ensures
            r == must_fetch(*self, force, now, ttl),
    {
        let last = if force {
            self.last_forced_refresh
        } else {
            self.fetched_at
        };
        let pause = if force {
            FORCED_REFRESH_PAUSE
        } else {
            ttl
        };
        match last {
            Some(moment) => if moment <= now {
                now - moment >= pause
            } else {
                pause == 0
            },
            None => true,
        }
    }

    /// The cache after the keys were fetched.
    pub fn fetched(self, force: bool, now: u64) -> (r: JwksCache)
        ensures
            r == (JwksCache {
                fetched_at: Some(now),
                last_forced_refresh: if force {
                    Some(now)
                } else {
                    self.last_forced_refresh
                },
            }),
    {
        JwksCache {
            fetched_at: Some(now),
            last_forced_refresh: if force {
                Some(now)
            } else {
                self.last_forced_refresh
            },
        }
    }
}

/// What is done next to verify a token.
#[derive(Debug, Clone, Copy, PartialEq, Eq, Structural)]
pub enum VerifyStep {
    Refresh,
    Find,
    ForceRefresh,
    FindAgain,
    Check,
    ForceAfterSignature,
    FindRotated,
    CheckRotated,
    Accepted,
    Unauthorized,
    Unavailable,
}

/// What came of a step.
#[derive(Debug, Clone, Copy, PartialEq, Eq, Structural)]
pub enum VerifyEvent {
    Refreshed,
    RefreshFailed,
    KeyFound,
    KeyMissing,
    Verified,
    BadSignature,
    Refused,
}

/// The step that follows. A missing key and a bad signature each lead to one
/// more fetch of the keys; everything else that fails ends it.
pub open spec fn verify_after(step: VerifyStep, event: VerifyEvent) -> VerifyStep {
    match (step, event) {
        (VerifyStep::Refresh, VerifyEvent::Refreshed) => VerifyStep::Find,
        (VerifyStep::Refresh, VerifyEvent::RefreshFailed) => VerifyStep::Unavailable,
        (VerifyStep::Find, VerifyEvent::KeyFound) => VerifyStep::Check,
        (VerifyStep::Find, VerifyEvent::KeyMissing) => VerifyStep::ForceRefresh,
        (VerifyStep::ForceRefresh, VerifyEvent::Refreshed) => VerifyStep::FindAgain,
        (VerifyStep::ForceRefresh, VerifyEvent::RefreshFailed) => VerifyStep::Unavailable,
        (VerifyStep::FindAgain, VerifyEvent::KeyFound) => VerifyStep::Check,
        (VerifyStep::FindAgain, VerifyEvent::KeyMissing) => VerifyStep::Unauthorized,
        (VerifyStep::Check, VerifyEvent::Verified) => VerifyStep::Accepted,
        (VerifyStep::Check, VerifyEvent::BadSignature) => VerifyStep::ForceAfterSignature,
        (VerifyStep::Check, VerifyEvent::Refused) => VerifyStep::Unauthorized,
        (VerifyStep::ForceAfterSignature, VerifyEvent::Refreshed) => VerifyStep::FindRotated,
        (VerifyStep::ForceAfterSignature, VerifyEvent::RefreshFailed) => VerifyStep::Unavailable,
        (VerifyStep::FindRotated, VerifyEvent::KeyFound) => VerifyStep::CheckRotated,
        (VerifyStep::FindRotated, VerifyEvent::KeyMissing) => VerifyStep::Unauthorized,
        (VerifyStep::CheckRotated, VerifyEvent::Verified) => VerifyStep::Accepted,
        (VerifyStep::CheckRotated, VerifyEvent::BadSignature) => VerifyStep::Unauthorized,
        (VerifyStep::CheckRotated, VerifyEvent::Refused) => VerifyStep::Unauthorized,
        _ => step,
    }
}

/// The step that follows.
pub fn verify_next(step: VerifyStep, event: VerifyEvent) -> (r: VerifyStep)
    ensures
        r == verify_after(step, event),
{
    match (step, event) {
        (VerifyStep::Refresh, VerifyEvent::Refreshed) => VerifyStep::Find,
        (VerifyStep::Refresh, VerifyEvent::RefreshFailed) => VerifyStep::Unavailable,
        (VerifyStep::Find, VerifyEvent::KeyFound) => VerifyStep::Check,
        (VerifyStep::Find, VerifyEvent::KeyMissing) => VerifyStep::ForceRefresh,
        (VerifyStep::ForceRefresh, VerifyEvent::Refreshed) => VerifyStep::FindAgain,
        (VerifyStep::ForceRefresh, VerifyEvent::RefreshFailed) => VerifyStep::Unavailable,
        (VerifyStep::FindAgain, VerifyEvent::KeyFound) => VerifyStep::Check,
        (VerifyStep::FindAgain, VerifyEvent::KeyMissing) => VerifyStep::Unauthorized,
        (VerifyStep::Check, VerifyEvent::Verified) => VerifyStep::Accepted,
        (VerifyStep::Check, VerifyEvent::BadSignature) => VerifyStep::ForceAfterSignature,
        (VerifyStep::Check, VerifyEvent::Refused) => VerifyStep::Unauthorized,
        (VerifyStep::ForceAfterSignature, VerifyEvent::Refreshed) => VerifyStep::FindRotated,
        (VerifyStep::ForceAfterSignature, VerifyEvent::RefreshFailed) => VerifyStep::Unavailable,
        (VerifyStep::FindRotated, VerifyEvent::KeyFound) => VerifyStep::CheckRotated,
        (VerifyStep::FindRotated, VerifyEvent::KeyMissing) => VerifyStep::Unauthorized,
        (VerifyStep::CheckRotated, VerifyEvent::Verified) => VerifyStep::Accepted,
        (VerifyStep::CheckRotated, VerifyEvent::BadSignature) => VerifyStep::Unauthorized,
        (VerifyStep::CheckRotated, VerifyEvent::Refused) => VerifyStep::Unauthorized,
        _ => step,
    }
}

/// The text of a URL up to its query or its fragment.
pub open spec fn up_to_query(url: Seq<char>) -> Seq<char>
    decreases url.len(),
{
    if url.len() == 0 || url[0] == '?' || url[0] == '#' {
        Seq::empty()
    } else {
        seq![url[0]] + up_to_query(url.drop_first())
    }
}

/// The text of a URL without its query and its fragment, as messages show it.
pub fn safe_url(url: &str) -> (r: String)
    ensures
        r@ == up_to_query(url@),
{
    let chars = text::chars_of(url);
    let mut out = String::new();
    let mut i: usize = 0;
    assert(chars@.skip(0) =~= chars@);
    assert(out@ + up_to_query(chars@) =~= up_to_query(chars@));
    while i < chars.len()
        invariant
            i <= chars@.len(),
            url@ == chars@,
            out@ + up_to_query(chars@.skip(i as int)) == up_to_query(url@),
        decreases chars@.len() - i,
    {
        let ghost rest = chars@.skip(i as int);
        let c = chars[i];
        assert(rest[0] == c);
        if c == '?' || c == '#' {
            assert(out@ + Seq::<char>::empty() =~= out@);
            return out;
        }
        let ghost before = out@;
        out.push(c);
        proof {
            assert(rest.drop_first() =~= chars@.skip(i + 1));
            assert(before + (seq![c] + up_to_query(rest.drop_first())) =~= out@ + up_to_query(
                chars@.skip(i + 1),
            ));
        }
        i += 1;
    }
    assert(chars@.skip(i as int).len() == 0);
    assert(out@ + Seq::<char>::empty() =~= out@);
    out
}

/// What messages show of a URL holds neither a query nor a fragment.
pub proof fn law_shown_urls_hold_no_query(url: Seq<char>)
    ensures
        !up_to_query(url).contains('?'),
        !up_to_query(url).contains('#'),
        up_to_query(url).is_prefix_of(url),
    decreases url.len(),
{
    if url.len() > 0 && url[0] != '?' && url[0] != '#' {
        law_shown_urls_hold_no_query(url.drop_first());
        let tail = up_to_query(url.drop_first());
        let all = up_to_query(url);
        assert forall|i: int| 0 <= i < all.len() implies all[i] != '?' && all[i] != '#' && all[i]
            == url[i] by {
            if i > 0 {
                assert(all[i] == tail[i - 1]);
                assert(tail.contains(tail[i - 1]));
                assert(tail[i - 1] == url.drop_first()[i - 1]);
            }
        }
        assert(all =~= url.subrange(0, all.len() as int));
    }
}

/// What can go wrong with a document of a provider.
#[derive(Debug, Clone, Copy, PartialEq, Eq, Structural)]
pub enum FetchFault {
    RequestFailed,
    ErrorStatus,
    TooLarge,
    Unreadable,
    InvalidJson,
}

/// What an operator is told of a document that could not be had.
pub open spec fn fetch_message(fault: FetchFault, url: Seq<char>, error: Seq<char>) -> Seq<char> {
    match fault {
        FetchFault::RequestFailed => "OIDC provider request failed for "@ + url + ": "@ + error,
        FetchFault::ErrorStatus => "OIDC provider returned an error for "@ + url + ": "@ + error,
        FetchFault::TooLarge => "OIDC provider document exceeded size limit at "@ + url,
        FetchFault::Unreadable => "could not read OIDC provider response from "@ + url + ": "@
            + error,
        FetchFault::InvalidJson => "OIDC provider returned invalid JSON from "@ + url + ": "@
            + error,
    }
}

/// What an operator is told of a document that could not be had; of its URL
/// neither the query nor the fragment.
pub fn fetch_error(fault: FetchFault, url: &str, error: &str) -> (r: OidcError)
    ensures
        r@ == ErrorView::Unavailable(fetch_message(fault, up_to_query(url@), error@)),
{
    let mut message = match fault {
        FetchFault::RequestFailed => "OIDC provider request failed for ".to_string(),
        FetchFault::ErrorStatus => "OIDC provider returned an error for ".to_string(),
        FetchFault::TooLarge => "OIDC provider document exceeded size limit at ".to_string(),
        FetchFault::Unreadable => "could not read OIDC provider response from ".to_string(),
        FetchFault::InvalidJson => "OIDC provider returned invalid JSON from ".to_string(),
    };
    message.append(safe_url(url).as_str());
    match fault {
        FetchFault::TooLarge => {},
        _ => {
            message.append(": ");
            message.append(error);
        },
    }
    OidcError::Unavailable(message)
}

/// Whether a document of this announced or actual length is taken.
pub fn within_document_limit(length: Option<u64>) -> (r: bool)
    ensures
        r == (length is None || length->0 <= MAX_PROVIDER_DOCUMENT_BYTES),
{
    match length {
        Some(n) => n <= MAX_PROVIDER_DOCUMENT_BYTES,
        None => true,
    }
}

/// The texts of keys.
pub open spec fn sources_of(keys: Seq<ProviderKey>) -> Seq<Seq<char>> {
    keys.map_values(|key: ProviderKey| key.source())
}

/// The identifiers of keys in JSON.
pub open spec fn kids_in(sources: Seq<Seq<char>>) -> Seq<Option<Seq<char>>> {
    sources.map_values(
        |source: Seq<char>| kid_of(outside::json_text(vstd::utf8::encode_utf8(source))->0),
    )
}

/// The keys that a provider's answer holds, or what is wrong with it.
pub open spec fn key_set_outcome(set: Result<Seq<Seq<char>>, Seq<char>>, url: Seq<char>) -> Result<
    Seq<Seq<char>>,
    Seq<char>,
> {
    match set {
        Err(error) => Err(fetch_message(FetchFault::InvalidJson, up_to_query(url), error)),
        Ok(sources) => match keys_fault(kids_in(sources)) {
            Some(message) => Err(message),
            None => Ok(sources),
        },
    }
}

/// The meaning of the keys of a provider.
pub open spec fn keys_view(r: Result<Vec<ProviderKey>, OidcError>) -> Result<
    Seq<Seq<char>>,
    ErrorView,
> {
    match r {
        Ok(keys) => Ok(sources_of(keys@)),
        Err(error) => Err(error@),
    }
}

/// The keys that a provider's answer from an address holds.
pub fn read_key_set(bytes: &[u8], url: &str) -> (r: Result<Vec<ProviderKey>, OidcError>)
    ensures
        keys_view(r) == (match key_set_outcome(outside::key_set_of(bytes@), url@) {
            Ok(sources) => Ok::<Seq<Seq<char>>, ErrorView>(sources),
            Err(message) => Err::<Seq<Seq<char>>, ErrorView>(ErrorView::Unavailable(message)),
        }),
{
    let sources = match outside::parse_key_set(bytes) {
        Ok(sources) => sources,
        Err(error) => {
            return Err(fetch_error(FetchFault::InvalidJson, url, error.as_str()));
        },
    };
    let ghost views = text::views(sources@);
    assert(views.len() == sources@.len());
    let mut keys: Vec<ProviderKey> = Vec::new();
    let mut i: usize = 0;
    while i < sources.len()
        invariant
            i <= sources@.len(),
            views == text::views(sources@),
            views.len() == sources@.len(),
            outside::are_documents(views),
            keys@.len() == i,
            forall|j: int|
                0 <= j < i ==> (#[trigger] keys@[j]).source() == views[j] && outside::json_text(
                    vstd::utf8::encode_utf8(views[j]),
                ) == Some(keys@[j].document()),
        decreases sources@.len() - i,
    {
        assert(views[i as int] == sources@[i as int]@);
        if let Some(key) = ProviderKey::read(sources[i].as_str()) {
            keys.push(key);
        }
        i += 1;
    }
    assert(sources_of(keys@) =~= views);
    assert(kids_of(keys@) =~= kids_in(views));
    match validate_jwks(&keys) {
        Ok(_) => Ok(keys),
        Err(error) => Err(error),
    }
}

/// The address of the keys that a discovery document names, or why it is not used.
pub open spec fn discovered_jwks(
    expected_issuer: Seq<char>,
    issuer: Seq<char>,
    jwks_uri: Seq<char>,
    allow_http: bool,
) -> Result<Seq<char>, Seq<char>> {
    if issuer != expected_issuer {
        Err("OIDC discovery issuer did not match configured issuer"@)
    } else {
        match provider_url("discovered jwks_uri"@, jwks_uri, allow_http) {
            Ok(url) => Ok(url.text),
            Err(message) => Err(message),
        }
    }
}

/// The address of the keys that a discovery document names.
pub fn accept_discovery(config: &OidcConfig, issuer: &str, jwks_uri: &str) -> (r: Result<
    String,
    OidcError,
>)
    ensures
        match r {
            Ok(url) => discovered_jwks(config@.issuer, issuer@, jwks_uri@, config.allow_http)
                == Ok::<Seq<char>, Seq<char>>(url@),
            Err(error) => discovered_jwks(
                config@.issuer,
                issuer@,
                jwks_uri@,
                config.allow_http,
            ) matches Err(message) && error@ == ErrorView::Unavailable(message),
        },
{
    if !text::text_eq(issuer, config.issuer.as_str()) {
        return Err(
            OidcError::Unavailable(
                "OIDC discovery issuer did not match configured issuer".to_string(),
            ),
        );
    }
    match parse_provider_url("discovered jwks_uri", jwks_uri, config.allow_http) {
        Ok(url) => Ok(url.text),
        Err(message) => Err(OidcError::Unavailable(message)),
    }
}

/// A configured provider never accepts an algorithm with a shared secret.
pub proof fn law_symmetric_algorithms_are_never_accepted(
    found: SettingsView,
    header: Option<(Seq<char>, Option<Seq<char>>)>,
)
    requires
        config_of(found) matches Ok(Some(_)),
    ensures
        config_of(found)->Ok_0->0.allowed_algorithms.len() > 0,
        none_symmetric(config_of(found)->Ok_0->0.allowed_algorithms),
        admissible(header, config_of(found)->Ok_0->0.allowed_algorithms) matches Some(
            (algorithm, _),
        ) ==> !is_symmetric(algorithm),
{
}

/// A provider that is reached by plain HTTP is this machine, or HTTP was
/// allowed on purpose.
pub proof fn law_plain_http_is_local_or_explicit(
    name: Seq<char>,
    value: Seq<char>,
    allow_http: bool,
)
    ensures
        provider_url(name, value, allow_http) matches Ok(url) ==> url.scheme == "https"@ || (
        url.scheme == "http"@ && (allow_http || is_loopback_host(url.host))),
{
}

/// The steps after a run of events.
pub open spec fn verify_run(events: Seq<VerifyEvent>) -> VerifyStep
    decreases events.len(),
{
    if events.len() == 0 {
        VerifyStep::Refresh
    } else {
        verify_after(verify_run(events.drop_last()), events.last())
    }
}

/// A token is accepted only when a key verified it.
pub proof fn law_acceptance_needs_verification(events: Seq<VerifyEvent>)
    ensures
        verify_run(events) == VerifyStep::Accepted ==> events.contains(VerifyEvent::Verified),
    decreases events.len(),
{
    if events.len() > 0 {
        law_acceptance_needs_verification(events.drop_last());
        let before = events.drop_last();
        if verify_run(events) == VerifyStep::Accepted {
            if verify_run(before) == VerifyStep::Accepted {
                let i = choose|i: int| 0 <= i < before.len() && before[i] == VerifyEvent::Verified;
                assert(events[i] == VerifyEvent::Verified);
            } else {
                assert(events[events.len() - 1] == VerifyEvent::Verified);
            }
        }
    }
}

/// How often the keys were fetched, or found fresh, in a run of events.
pub open spec fn refreshes(events: Seq<VerifyEvent>) -> nat
    decreases events.len(),
{
    if events.len() == 0 {
        0
    } else if events.last() == VerifyEvent::Refreshed {
        refreshes(events.drop_last()) + 1
    } else {
        refreshes(events.drop_last())
    }
}

/// The keys were asked for as often as a step needs.
spec fn refreshed_enough(step: VerifyStep, events: Seq<VerifyEvent>) -> bool {
    match step {
        VerifyStep::Find
        | VerifyStep::ForceRefresh
        | VerifyStep::Check
        | VerifyStep::ForceAfterSignature => refreshes(events) >= 1,
        VerifyStep::FindAgain | VerifyStep::FindRotated | VerifyStep::CheckRotated => refreshes(
            events,
        ) >= 2,
        VerifyStep::Unauthorized => refreshes(events) >= 2 || events.contains(
            VerifyEvent::Refused,
        ),
        _ => true,
    }
}

/// Provider keys may rotate: for want of its key, or for a bad signature, a token
/// is refused only after the keys were asked for a second time.
pub proof fn law_rotated_keys_are_looked_for(events: Seq<VerifyEvent>)
    ensures
        verify_run(events) == VerifyStep::Unauthorized && !events.contains(VerifyEvent::Refused)
            ==> refreshes(events) >= 2,
{
    lemma_refreshed_enough(events);
}

proof fn lemma_refreshed_enough(events: Seq<VerifyEvent>)
    ensures
        refreshed_enough(verify_run(events), events),
    decreases events.len(),
{
    if events.len() > 0 {
        let before = events.drop_last();
        lemma_refreshed_enough(before);
        if before.contains(VerifyEvent::Refused) {
            let i = choose|i: int| 0 <= i < before.len() && before[i] == VerifyEvent::Refused;
            assert(events[i] == VerifyEvent::Refused);
        }
        if events.last() == VerifyEvent::Refused {
            assert(events[events.len() - 1] == VerifyEvent::Refused);
        }
    }
}

/// After a forced fetch no other one is made for a while, however often it is
/// asked for.
pub proof fn law_forced_fetches_are_spaced(cache: JwksCache, fetched: u64, now: u64, ttl: u64)
    requires
        cache.last_forced_refresh == Some(fetched),
        passed(fetched, now) < FORCED_REFRESH_PAUSE,
    ensures
        !must_fetch(cache, true, now, ttl),
{
}

} // verus!
