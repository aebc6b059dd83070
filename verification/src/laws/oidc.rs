//! What sign-on by OpenID Connect is owed: which providers, keys and algorithms
//! are accepted, when keys are fetched, and how a token is verified.
use vstd::prelude::*;
use crate::ip;
use crate::json;
use crate::json::{Json, JsonView};
use crate::laws::texts;
use crate::oidc;
use crate::oidc::{
    Decoded, FetchFault, JwksCache, KeyFault, OidcConfig, OidcError, OidcSettings, ProviderKey,
    VerifyEvent, VerifyStep,
};
use crate::outside;
use crate::outside::UrlParts;
use crate::text;
use crate::text_laws;

verus! {

/// The algorithm is one of those whose keys can be published.
pub open spec fn is_published(name: Seq<char>) -> bool {
    ||| name == "ES256"@ || name == "ES384"@
    ||| name == "RS256"@ || name == "RS384"@ || name == "RS512"@
    ||| name == "PS256"@ || name == "PS384"@ || name == "PS512"@
    ||| name == "EdDSA"@
}

/// The algorithm signs with a shared secret.
pub open spec fn is_shared(name: Seq<char>) -> bool {
    name == "HS256"@ || name == "HS384"@ || name == "HS512"@
}

/// What tells these names apart.
proof fn lemma_algorithms_differ()
    ensures
        "HS256"@[0] == 'H',
        "HS256"@[2] == '2',
        "HS384"@[0] == 'H',
        "HS384"@[2] == '3',
        "HS512"@[0] == 'H',
        "HS512"@[2] == '5',
        "ES256"@[0] == 'E',
        "ES256"@[2] == '2',
        "ES384"@[0] == 'E',
        "ES384"@[2] == '3',
        "RS256"@[0] == 'R',
        "RS256"@[2] == '2',
        "RS384"@[0] == 'R',
        "RS384"@[2] == '3',
        "RS512"@[0] == 'R',
        "RS512"@[2] == '5',
        "PS256"@[0] == 'P',
        "PS256"@[2] == '2',
        "PS384"@[0] == 'P',
        "PS384"@[2] == '3',
        "PS512"@[0] == 'P',
        "PS512"@[2] == '5',
        "EdDSA"@[0] == 'E',
        "EdDSA"@[2] == 'D',
{
    reveal_strlit("HS256");
    reveal_strlit("HS384");
    reveal_strlit("HS512");
    reveal_strlit("ES256");
    reveal_strlit("ES384");
    reveal_strlit("RS256");
    reveal_strlit("RS384");
    reveal_strlit("RS512");
    reveal_strlit("PS256");
    reveal_strlit("PS384");
    reveal_strlit("PS512");
    reveal_strlit("EdDSA");
}

/// The known algorithms, written out.
proof fn lemma_algorithms(name: Seq<char>)
    ensures
        oidc::algorithm_names().contains(name) <==> is_shared(name) || is_published(name),
        oidc::is_symmetric(name) <==> is_shared(name),
        is_shared(name) ==> !is_published(name),
{
    lemma_algorithms_differ();
    let all = oidc::algorithm_names();
    assert(all[0] == "HS256"@ && all[1] == "HS384"@ && all[2] == "HS512"@);
    assert(all[3] == "ES256"@ && all[4] == "ES384"@ && all[5] == "RS256"@);
    assert(all[6] == "RS384"@ && all[7] == "RS512"@ && all[8] == "PS256"@);
    assert(all[9] == "PS384"@ && all[10] == "PS512"@ && all[11] == "EdDSA"@);
    let shared = oidc::symmetric_names();
    assert(shared[0] == "HS256"@ && shared[1] == "HS384"@ && shared[2] == "HS512"@);
}

/// The algorithms of shared secrets are the three HMACs.
pub proof fn law_shared_algorithms(name: &str, symmetric: bool)
    requires
        call_ensures(oidc::symmetric_algorithm, (name,), symmetric),
    ensures
        symmetric <==> is_shared(name@),
{
    lemma_algorithms(name@);
}

/// A list of algorithms is accepted exactly where it names at least one and each
/// has keys that can be published; an unknown name is a fault of its own.
pub proof fn law_only_published_algorithms_are_listed(
    setting: &str,
    parsed: Result<Vec<String>, String>,
)
    requires
        call_ensures(oidc::parse_algorithms, (setting,), parsed),
    ensures
        ({
            let names = text::listed(setting@);
            &&& parsed is Ok <==> names.len() > 0 && forall|i: int|
                0 <= i < names.len() ==> is_published(#[trigger] names[i])
            &&& parsed matches Ok(list) ==> text::views(list@) == names
            &&& (exists|i: int|
                0 <= i < names.len() && !is_published(#[trigger] names[i]) && !is_shared(names[i]))
                ==> (parsed matches Err(message) && message@ == "InvalidAlgorithmName"@)
        }),
{
    let names = text::listed(setting@);
    assert forall|i: int| 0 <= i < names.len() implies oidc::algorithm_names().contains(
        #[trigger] names[i],
    ) == (is_shared(names[i]) || is_published(names[i])) && oidc::is_symmetric(names[i])
        == is_shared(names[i]) && (is_shared(names[i]) ==> !is_published(names[i])) by {
        lemma_algorithms(names[i]);
    }
}

/// The host is this machine.
pub open spec fn is_here(host: Seq<char>) -> bool {
    let bare = if host.len() >= 2 && host[0] == '[' && host[host.len() - 1] == ']' {
        host.subrange(1, host.len() - 1)
    } else {
        host
    };
    text::lower(host) == "localhost"@ || (ip::parsed_ip(bare) matches Some(address)
        && ip::is_loopback(address))
}

/// A provider is asked over HTTPS; over HTTP only on this machine or where that
/// is allowed. Its URL has a host and no credentials.
pub proof fn law_providers_are_asked_over_https(
    name: &str,
    url: UrlParts,
    allow_http: bool,
    fault: Option<String>,
)
    requires
        call_ensures(oidc::check_provider_url, (name, &url, allow_http), fault),
    ensures
        ({
            let secure = url.scheme@ == "https"@ || (url.scheme@ == "http"@ && (allow_http || (
            url.host matches Some(host) && is_here(host@))));
            let plain = url.username@.len() == 0 && url.password is None && url.host is Some;
            &&& fault is None <==> secure && plain
            &&& !secure ==> fault->0@ == name@
                + " must use HTTPS (HTTP is accepted only for loopback or explicit test configuration)"@
            &&& secure && !plain ==> fault->0@ == name@
                + " must be an absolute provider URL without embedded credentials"@
        }),
{
    reveal_strlit("localhost");
    assert(text::lower("localhost"@) =~= "localhost"@);
}

/// A provider URL is the one that its text is, where it is accepted.
pub proof fn law_provider_urls_are_read(
    name: &str,
    value: &str,
    url: UrlParts,
    allow_http: bool,
    fault: Option<String>,
    parsed: Result<UrlParts, String>,
)
    requires
        call_ensures(oidc::check_provider_url, (name, &url, allow_http), fault),
        call_ensures(oidc::parse_provider_url, (name, value, allow_http), parsed),
    ensures
        outside::url_of(value@) == Ok::<outside::UrlView, Seq<char>>(url@) ==> {
            &&& parsed is Ok <==> fault is None
            &&& parsed matches Ok(found) ==> found@ == url@
            &&& parsed matches Err(message) ==> message@ == fault->0@
        },
        outside::url_of(value@) matches Err(error) ==> (parsed matches Err(message) && message@
            == name@ + " is invalid: "@ + error),
{
}

/// A setting that is required is trimmed, and asked for where it is blank.
pub proof fn law_required_settings(
    name: &str,
    value: Option<&str>,
    found: Result<String, String>,
)
    requires
        call_ensures(oidc::required_env, (name, value), found),
    ensures
        found is Ok <==> (value matches Some(word) && text::trimmed(word@).len() > 0),
        found matches Ok(word) ==> word@ == text::trimmed(value->0@),
        found matches Err(message) ==> message@ == name@ + " is required when OIDC SSO is enabled"@,
{
}

/// Sign-on by OpenID Connect is off unless it is switched on, and off where
/// another mode is named.
pub proof fn law_sign_on_is_switched_on(
    found: OidcSettings,
    config: Result<Option<OidcConfig>, String>,
)
    requires
        call_ensures(OidcConfig::from_settings, (&found,), config),
    ensures
        ({
            let on = (found.enabled matches Some(word) && text::lower(word@) == "true"@) && (
            found.mode matches Some(mode) ==> text::lower(mode@) == "oidc"@);
            &&& !on ==> (config is Ok && config->Ok_0 is None)
            &&& on ==> (config is Err || config->Ok_0 is Some)
        }),
{
    reveal_strlit("true");
    reveal_strlit("oidc");
    assert(text::lower("true"@) =~= "true"@);
    assert(text::lower("oidc"@) =~= "oidc"@);
}

/// A configuration that is accepted has the issuer and the audience as set, and
/// times within their bounds: keys are kept five minutes, clocks may differ by
/// one, and a request takes at most ten seconds, where nothing else is set.
pub proof fn law_configurations_have_defaults(found: OidcSettings, config: OidcConfig)
    requires
        call_ensures(OidcConfig::from_settings, (&found,), Ok(Some(config))),
    ensures
        found.issuer matches Some(issuer) && config.issuer@ == text::trimmed(issuer@),
        found.audience matches Some(audience) && config.audience@ == text::trimmed(audience@),
        config.issuer@.len() > 0,
        config.audience@.len() > 0,
        found.cache_seconds is None ==> config.cache_seconds == 300,
        found.clock_skew_seconds is None ==> config.leeway_seconds == 60,
        found.timeout_seconds is None ==> config.timeout_seconds == 10,
        30 <= config.cache_seconds <= 86_400,
        0 <= config.leeway_seconds <= 300,
        2 <= config.timeout_seconds <= 60,
        config.allow_http <==> (found.allow_http matches Some(word) && text::same_ignoring_case(
            word@,
            "true"@,
        )),
        found.jwks_url is None ==> config.explicit_jwks_url is None,
        found.algorithms matches Some(list) ==> text::views(config.allowed_algorithms@)
            == text::listed(list@),
        found.algorithms is None ==> text::views(config.allowed_algorithms@) == text::listed(
            "RS256,RS384,RS512,PS256,PS384,PS512,ES256,ES384,EdDSA"@,
        ),
        config.allowed_algorithms@.len() > 0,
        forall|i: int|
            0 <= i < config.allowed_algorithms@.len() ==> is_published(
                (#[trigger] config.allowed_algorithms@[i])@,
            ),
{
    let names = text::views(config.allowed_algorithms@);
    assert(names.len() == config.allowed_algorithms@.len());
    assert forall|i: int| 0 <= i < config.allowed_algorithms@.len() implies is_published(
        (#[trigger] config.allowed_algorithms@[i])@,
    ) by {
        assert(names[i] == config.allowed_algorithms@[i]@);
        assert(oidc::algorithm_names().contains(names[i]));
        assert(!oidc::is_symmetric(names[i]));
        lemma_algorithms(names[i]);
    }
}

/// A time that is set is kept within its bounds.
pub proof fn law_configured_times(
    found: OidcSettings,
    config: OidcConfig,
    cache: u64,
    skew: u64,
    timeout: u64,
)
    requires
        call_ensures(OidcConfig::from_settings, (&found,), Ok(Some(config))),
        found.cache_seconds matches Some(word) && word@ == text::decimal(cache as nat),
        found.clock_skew_seconds matches Some(word) && word@ == text::decimal(skew as nat),
        found.timeout_seconds matches Some(word) && word@ == text::decimal(timeout as nat),
    ensures
        config.cache_seconds == (if cache < 30 {
            30u64
        } else if cache > 86_400 {
            86_400u64
        } else {
            cache
        }),
        config.leeway_seconds == (if skew > 300 {
            300u64
        } else {
            skew
        }),
        config.timeout_seconds == (if timeout < 2 {
            2u64
        } else if timeout > 60 {
            60u64
        } else {
            timeout
        }),
{
    text_laws::lemma_decimal_digits(cache as nat);
    text_laws::lemma_decimal_digits(skew as nat);
    text_laws::lemma_decimal_digits(timeout as nat);
    assert(text::is_digit(text::decimal(cache as nat)[0]));
    assert(text::is_digit(text::decimal(skew as nat)[0]));
    assert(text::is_digit(text::decimal(timeout as nat)[0]));
}

/// A configuration is accepted where its issuer is a provider's URL without a
/// query, and its discovery document lies below the issuer where it is not set.
pub proof fn law_good_configurations_are_accepted(
    found: OidcSettings,
    issuer: String,
    audience: String,
    allow_http: bool,
    issuer_text: &str,
    discovery_text: &str,
    issuer_url: UrlParts,
    discovery_url: UrlParts,
    config: Result<Option<OidcConfig>, String>,
)
    requires
        call_ensures(OidcConfig::from_settings, (&found,), config),
        found.enabled matches Some(word) && text::same_ignoring_case(word@, "true"@),
        found.mode is None,
        found.issuer == Some(issuer),
        found.audience == Some(audience),
        text::trimmed(issuer@).len() > 0,
        text::trimmed(audience@).len() > 0,
        allow_http == (found.allow_http matches Some(word) && text::same_ignoring_case(
            word@,
            "true"@,
        )),
        issuer_text@ == text::trimmed(issuer@),
        issuer_text@.last() != '/',
        discovery_text@ == issuer_text@ + "/.well-known/openid-configuration"@,
        call_ensures(
            oidc::parse_provider_url,
            ("ADMIN_UI_OIDC_ISSUER", issuer_text, allow_http),
            Ok(issuer_url),
        ),
        issuer_url.query is None,
        issuer_url.fragment is None,
        call_ensures(
            oidc::parse_provider_url,
            ("ADMIN_UI_OIDC_ISSUER", discovery_text, allow_http),
            Ok(discovery_url),
        ),
        found.discovery_url is None,
        found.jwks_url is None,
        found.algorithms matches Some(list) && list@ == "RS256"@,
    ensures
        config matches Ok(Some(accepted)) && accepted.discovery_url@ == discovery_url.text@,
{
    reveal_strlit("RS256");
    let name = "RS256"@;
    assert(!name.contains(','));
    text_laws::lemma_single_piece(name, ',');
    assert(text::pieces(name, ',')[0] == name);
    assert(text::trimmed(name) =~= name) by {
        text_laws::lemma_trimmed_of_solid(name);
    }
    texts::lemma_listed(name, name);
    let names = text::listed(name);
    assert forall|i: int| 0 <= i < names.len() implies #[trigger] names[i] == name by {
        assert(names.contains(names[i]));
        texts::lemma_listed(name, names[i]);
    }
    lemma_algorithms(name);
}

/// A key set is accepted exactly where it holds keys, each has an identifier, and
/// no two have the same.
pub proof fn law_key_sets_are_checked(keys: Vec<ProviderKey>, verdict: Result<(), OidcError>)
    requires
        call_ensures(oidc::validate_jwks, (&keys,), verdict),
    ensures
        ({
            let n = keys@.len();
            verdict is Ok <==> {
                &&& n > 0
                &&& forall|i: int|
                    0 <= i < n ==> (json::text_of(
                        json::member((#[trigger] keys@[i]).document(), "kid"@),
                    ) matches Some(kid) && kid.len() > 0)
                &&& forall|i: int, j: int|
                    0 <= i < j < n ==> json::text_of(
                        json::member((#[trigger] keys@[i]).document(), "kid"@),
                    ) != json::text_of(json::member((#[trigger] keys@[j]).document(), "kid"@))
            }
        }),
        keys@.len() == 0 ==> (verdict matches Err(error) && (error matches OidcError::Unavailable(
            message,
        ) && message@ == "OIDC JWKS document did not contain keys"@)),
        verdict matches Err(error) ==> error is Unavailable,
{
    let kids = oidc::kids_of(keys@);
    assert(kids.len() == keys@.len());
    assert forall|i: int| 0 <= i < kids.len() implies #[trigger] kids[i] == json::text_of(
        json::member(keys@[i].document(), "kid"@),
    ) by {}
    lemma_kid_faults(kids, kids.len());
    let n = keys@.len();
    if are_good(kids, n) {
        assert forall|i: int| 0 <= i < n implies (json::text_of(
            json::member((#[trigger] keys@[i]).document(), "kid"@),
        ) matches Some(kid) && kid.len() > 0) by {
            assert(kids[i] is Some);
        }
        assert forall|i: int, j: int| 0 <= i < j < n implies json::text_of(
            json::member((#[trigger] keys@[i]).document(), "kid"@),
        ) != json::text_of(json::member((#[trigger] keys@[j]).document(), "kid"@)) by {
            assert(kids[i] != kids[j]);
        }
    }
    if (forall|i: int|
        0 <= i < n ==> (json::text_of(json::member((#[trigger] keys@[i]).document(), "kid"@))
            matches Some(kid) && kid.len() > 0)) && (forall|i: int, j: int|
        0 <= i < j < n ==> json::text_of(json::member((#[trigger] keys@[i]).document(), "kid"@))
            != json::text_of(json::member((#[trigger] keys@[j]).document(), "kid"@))) {
        assert forall|i: int| 0 <= i < n implies (#[trigger] kids[i]) is Some && kids[i]->0.len()
            > 0 by {
            assert(kids[i] == json::text_of(json::member(keys@[i].document(), "kid"@)));
        }
        assert forall|i: int, j: int| 0 <= i < j < n implies #[trigger] kids[i] != #[trigger] kids[j] by {
            assert(kids[i] == json::text_of(json::member(keys@[i].document(), "kid"@)));
            assert(kids[j] == json::text_of(json::member(keys@[j].document(), "kid"@)));
        }
    }
}

/// The first identifiers are there and all differ.
spec fn are_good(kids: Seq<Option<Seq<char>>>, n: nat) -> bool {
    &&& forall|i: int| 0 <= i < n ==> (#[trigger] kids[i]) is Some && kids[i]->0.len() > 0
    &&& forall|i: int, j: int| 0 <= i < j < n ==> #[trigger] kids[i] != #[trigger] kids[j]
}

/// No fault is found among identifiers exactly where they are there and differ.
proof fn lemma_kid_faults(kids: Seq<Option<Seq<char>>>, n: nat)
    requires
        n <= kids.len(),
    ensures
        oidc::first_kid_fault(kids, n) is None <==> are_good(kids, n),
    decreases n,
{
    if n > 0 {
        lemma_kid_faults(kids, (n - 1) as nat);
        let before = kids.take(n - 1);
        if before.contains(kids[n - 1]) {
            let i = choose|i: int| 0 <= i < before.len() && before[i] == kids[n - 1];
            assert(kids[i] == kids[n - 1]);
        } else {
            assert forall|i: int| 0 <= i < n - 1 implies #[trigger] kids[i] != kids[n - 1] by {
                assert(before[i] == kids[i]);
            }
        }
    }
}

/// A key is found by its identifier; the first with it is taken.
pub proof fn law_keys_are_found(keys: Vec<ProviderKey>, kid: &str, found: Option<usize>)
    requires
        call_ensures(oidc::find_key, (&keys, kid), found),
    ensures
        found matches Some(at) ==> at < keys@.len() && json::text_of(
            json::member(keys@[at as int].document(), "kid"@),
        ) == Some(kid@),
        found matches Some(at) ==> forall|i: int|
            0 <= i < at ==> json::text_of(
                json::member((#[trigger] keys@[i]).document(), "kid"@),
            ) != Some(kid@),
        found is None ==> forall|i: int|
            0 <= i < keys@.len() ==> json::text_of(
                json::member((#[trigger] keys@[i]).document(), "kid"@),
            ) != Some(kid@),
{
    let kids = oidc::kids_of(keys@);
    assert(kids.len() == keys@.len());
    lemma_key_named(kids, kid@, kids.len());
    assert forall|i: int| 0 <= i < keys@.len() implies kids[i] == json::text_of(
        json::member((#[trigger] keys@[i]).document(), "kid"@),
    ) by {}
}

/// The first identifier that is the one asked for.
proof fn lemma_key_named(kids: Seq<Option<Seq<char>>>, kid: Seq<char>, n: nat)
    requires
        n <= kids.len(),
    ensures
        oidc::key_named(kids, kid, n) matches Some(at) ==> 0 <= at < n && kids[at] == Some(kid)
            && forall|i: int| 0 <= i < at ==> #[trigger] kids[i] != Some(kid),
        oidc::key_named(kids, kid, n) is None ==> forall|i: int|
            0 <= i < n ==> #[trigger] kids[i] != Some(kid),
    decreases n,
{
    if n > 0 {
        lemma_key_named(kids, kid, (n - 1) as nat);
    }
}

/// The key has nothing under this name.
pub open spec fn lacks(key: JsonView, name: Seq<char>) -> bool {
    json::member(key, name) is None || json::member(key, name) == Some(JsonView::Null)
}

/// What tells these names apart.
proof fn lemma_key_kinds_differ()
    ensures
        "EC"@.len() == 2,
        "RSA"@.len() == 3,
        "OKP"@.len() == 3,
        "RSA"@[0] == 'R',
        "OKP"@[0] == 'O',
{
    reveal_strlit("EC");
    reveal_strlit("RSA");
    reveal_strlit("OKP");
}

/// A key verifies an algorithm exactly where it is of a public kind, is meant for
/// that algorithm or for none in particular, and for signatures, as far as it
/// says what it is meant for.
pub proof fn law_keys_are_checked(key: Json, algorithm: &str, verdict: Result<(), KeyFault>)
    requires
        call_ensures(oidc::validate_jwk, (&key, algorithm), verdict),
    ensures
        ({
            let kind = json::text_of(json::member(key@, "kty"@));
            let public = kind == Some("EC"@) || kind == Some("RSA"@) || kind == Some("OKP"@);
            let fits = lacks(key@, "alg"@) || json::member(key@, "alg"@) == Some(
                JsonView::Text(algorithm@),
            );
            let signs = lacks(key@, "use"@) || json::member(key@, "use"@) == Some(
                JsonView::Text("sig"@),
            );
            let verifies = lacks(key@, "key_ops"@) || (json::member(key@, "key_ops"@) matches Some(
                JsonView::Array(items),
            ) && items.contains(JsonView::Text("verify"@)));
            &&& verdict is Ok <==> public && fits && signs && verifies
            &&& !(public && fits) ==> verdict == Err::<(), KeyFault>(KeyFault::InvalidAlgorithm)
            &&& public && fits && !(signs && verifies) ==> verdict == Err::<(), KeyFault>(
                KeyFault::InvalidKeyFormat,
            )
        }),
{
}

/// Only a checked key verifies, and for the Edwards curve only one that holds a
/// point.
pub proof fn law_verifiers(key: Json, algorithm: &str, verdict: Result<(), KeyFault>, verifies: bool)
    requires
        call_ensures(oidc::validate_jwk, (&key, algorithm), verdict),
        call_ensures(oidc::is_verifier, (&key, algorithm), verifies),
    ensures
        verifies <==> verdict is Ok && (algorithm@ == "EdDSA"@ ==> outside::holds_edwards_point(
            key@,
        )),
{
}

/// A decoded token is verified, has a bad signature, or is refused.
pub proof fn law_decoded_tokens_are_judged(
    claims: Json,
    verified: Decoded,
    unsigned: Decoded,
    refused: Decoded,
)
    requires
        call_ensures(oidc::judge, (Ok(claims),), verified),
        call_ensures(oidc::judge, (Err(true),), unsigned),
        call_ensures(oidc::judge, (Err(false),), refused),
    ensures
        verified matches Decoded::Verified(found) && found@ == claims@,
        unsigned is BadSignature,
        refused is Refused,
{
}

/// A token is looked at only where its header names an allowed algorithm, which
/// is never one of a shared secret, and a key.
pub proof fn law_headers_are_admitted(
    header: Option<(String, Option<String>)>,
    allowed: Vec<String>,
    admitted: Option<(String, String)>,
)
    requires
        call_ensures(oidc::admit_header, (&header, &allowed), admitted),
    ensures
        header is None ==> admitted is None,
        header matches Some((algorithm, kid)) ==> {
            &&& admitted is Some <==> kid is Some && text::views(allowed@).contains(algorithm@)
                && !is_shared(algorithm@)
            &&& admitted matches Some((named, key)) ==> named@ == algorithm@ && key@ == kid->0@
        },
{
    if let Some((algorithm, kid)) = header {
        lemma_algorithms(algorithm@);
    }
}

/// Keys are fetched where none are there or those that are there have aged; where
/// a fetch is forced, only five seconds after the last forced one.
pub proof fn law_keys_are_fetched_when_stale(
    cache: JwksCache,
    force: bool,
    now: u64,
    ttl: u64,
    fetches: bool,
)
    requires
        call_ensures(JwksCache::refresh_if_stale, (&cache, force, now, ttl), fetches),
    ensures
        !force ==> (fetches <==> (cache.fetched_at matches Some(moment) ==> ttl == 0 || moment + ttl
            <= now)),
        force ==> (fetches <==> (cache.last_forced_refresh matches Some(moment) ==> moment + 5_000
            <= now)),
{
}

/// A fetch is noted, and a forced one as such; an empty cache notes none.
pub proof fn law_fetches_are_noted(
    cache: JwksCache,
    force: bool,
    now: u64,
    noted: JwksCache,
    fresh: JwksCache,
)
    requires
        call_ensures(JwksCache::fetched, (cache, force, now), noted),
        call_ensures(JwksCache::new, (), fresh),
    ensures
        noted.fetched_at == Some(now),
        force ==> noted.last_forced_refresh == Some(now),
        !force ==> noted.last_forced_refresh == cache.last_forced_refresh,
        fresh.fetched_at is None,
        fresh.last_forced_refresh is None,
{
}

/// A token is verified step by step: keys are refreshed, the key is found and the
/// token checked. A missing key and a bad signature each lead to one more look at
/// fresh keys; a second miss, and a refusal, end in 401.
pub proof fn law_verification_goes_on(step: VerifyStep, event: VerifyEvent, next: VerifyStep)
    requires
        call_ensures(oidc::verify_next, (step, event), next),
    ensures
        event is Refreshed ==> {
            &&& step is Refresh ==> next is Find
            &&& step is ForceRefresh ==> next is FindAgain
            &&& step is ForceAfterSignature ==> next is FindRotated
        },
        event is RefreshFailed && (step is Refresh || step is ForceRefresh || step
            is ForceAfterSignature) ==> next is Unavailable,
        event is KeyFound ==> {
            &&& step is Find || step is FindAgain ==> next is Check
            &&& step is FindRotated ==> next is CheckRotated
        },
        event is KeyMissing ==> {
            &&& step is Find ==> next is ForceRefresh
            &&& step is FindAgain || step is FindRotated ==> next is Unauthorized
        },
        event is Verified && (step is Check || step is CheckRotated) ==> next is Accepted,
        event is BadSignature ==> {
            &&& step is Check ==> next is ForceAfterSignature
            &&& step is CheckRotated ==> next is Unauthorized
        },
        event is Refused && (step is Check || step is CheckRotated) ==> next is Unauthorized,
        step is Accepted || step is Unauthorized || step is Unavailable ==> next == step,
        next is Accepted ==> step is Accepted || (event is Verified && (step is Check || step
            is CheckRotated)),
{
}

/// A URL is shown up to its query or fragment.
pub proof fn law_urls_are_shown_without_query(
    url: &str,
    base: Seq<char>,
    mark: char,
    rest: Seq<char>,
    shown: String,
)
    requires
        call_ensures(oidc::safe_url, (url,), shown),
        !base.contains('?'),
        !base.contains('#'),
        mark == '?' || mark == '#',
    ensures
        url@ == base ==> shown@ == base,
        url@ == base + seq![mark] + rest ==> shown@ == base,
{
    lemma_up_to_query(base, Seq::empty());
    assert(base + Seq::<char>::empty() =~= base);
    lemma_up_to_query(base, seq![mark] + rest);
    assert(base + (seq![mark] + rest) =~= base + seq![mark] + rest);
}

/// What precedes the query is kept.
proof fn lemma_up_to_query(base: Seq<char>, tail: Seq<char>)
    requires
        !base.contains('?'),
        !base.contains('#'),
        tail.len() == 0 || tail[0] == '?' || tail[0] == '#',
    ensures
        oidc::up_to_query(base + tail) == base,
    decreases base.len(),
{
    let whole = base + tail;
    if base.len() == 0 {
        assert(whole =~= tail);
        assert(base =~= Seq::<char>::empty());
    } else {
        assert(whole[0] == base[0]);
        assert(base.contains(base[0]));
        let rest = base.drop_first();
        assert(!rest.contains('?')) by {
            if rest.contains('?') {
                let i = choose|i: int| 0 <= i < rest.len() && rest[i] == '?';
                assert(base[i + 1] == '?');
            }
        }
        assert(!rest.contains('#')) by {
            if rest.contains('#') {
                let i = choose|i: int| 0 <= i < rest.len() && rest[i] == '#';
                assert(base[i + 1] == '#');
            }
        }
        lemma_up_to_query(rest, tail);
        assert(whole.drop_first() =~= rest + tail);
        assert(seq![base[0]] + rest =~= base);
    }
}

/// A failed fetch is told with the URL as it is shown and with the error.
pub proof fn law_failed_fetches_are_told(
    fault: FetchFault,
    url: &str,
    shown: String,
    error: &str,
    told: OidcError,
)
    requires
        call_ensures(oidc::safe_url, (url,), shown),
        call_ensures(oidc::fetch_error, (fault, url, error), told),
    ensures
        told matches OidcError::Unavailable(message) && {
            &&& fault is RequestFailed ==> message@ == "OIDC provider request failed for "@ + shown@
                + ": "@ + error@
            &&& fault is ErrorStatus ==> message@ == "OIDC provider returned an error for "@
                + shown@ + ": "@ + error@
            &&& fault is TooLarge ==> message@ == "OIDC provider document exceeded size limit at "@
                + shown@
            &&& fault is Unreadable ==> message@ == "could not read OIDC provider response from "@
                + shown@ + ": "@ + error@
            &&& fault is InvalidJson ==> message@ == "OIDC provider returned invalid JSON from "@
                + shown@ + ": "@ + error@
        },
{
}

/// A provider's document has at most a megabyte.
pub proof fn law_documents_are_small(length: Option<u64>, small: bool)
    requires
        call_ensures(oidc::within_document_limit, (length,), small),
    ensures
        small <==> (length matches Some(bytes) ==> bytes <= 1024 * 1024),
{
}

/// A discovered document is accepted exactly where it names the configured issuer
/// and the URL of its keys is one of a provider.
pub proof fn law_discovered_issuers_must_match(
    config: OidcConfig,
    issuer: &str,
    jwks_uri: &str,
    url: Result<UrlParts, String>,
    accepted: Result<String, OidcError>,
)
    requires
        call_ensures(
            oidc::parse_provider_url,
            ("discovered jwks_uri", jwks_uri, config.allow_http),
            url,
        ),
        call_ensures(oidc::accept_discovery, (&config, issuer, jwks_uri), accepted),
    ensures
        accepted is Ok <==> issuer@ == config.issuer@ && url is Ok,
        accepted matches Ok(found) ==> found@ == url->Ok_0.text@,
        issuer@ != config.issuer@ ==> (accepted matches Err(error) && (
        error matches OidcError::Unavailable(message) && message@
            == "OIDC discovery issuer did not match configured issuer"@)),
        issuer@ == config.issuer@ ==> (url matches Err(fault) ==> (accepted matches Err(error) && (
        error matches OidcError::Unavailable(message) && message@ == fault@))),
{
}

/// A discovery document or a key set that is set explicitly is asked for where it
/// is set, and is refused by name where that is no provider's URL.
pub proof fn law_explicit_urls_are_used(
    found: OidcSettings,
    discovery: String,
    jwks: String,
    allow_http: bool,
    discovery_text: &str,
    jwks_text: &str,
    discovery_url: Result<UrlParts, String>,
    jwks_url: Result<UrlParts, String>,
    config: Result<Option<OidcConfig>, String>,
)
    requires
        call_ensures(OidcConfig::from_settings, (&found,), config),
        found.discovery_url == Some(discovery),
        found.jwks_url == Some(jwks),
        text::trimmed(discovery@).len() > 0,
        text::trimmed(jwks@).len() > 0,
        discovery_text@ == text::trimmed(discovery@),
        jwks_text@ == text::trimmed(jwks@),
        allow_http == (found.allow_http matches Some(word) && text::same_ignoring_case(
            word@,
            "true"@,
        )),
        call_ensures(
            oidc::parse_provider_url,
            ("ADMIN_UI_OIDC_DISCOVERY_URL", discovery_text, allow_http),
            discovery_url,
        ),
        call_ensures(
            oidc::parse_provider_url,
            ("ADMIN_UI_OIDC_JWKS_URL", jwks_text, allow_http),
            jwks_url,
        ),
    ensures
        config matches Ok(Some(accepted)) ==> discovery_url is Ok && jwks_url is Ok
            && accepted.discovery_url@ == discovery_url->Ok_0.text@ && (
        accepted.explicit_jwks_url matches Some(url) && url@ == jwks_url->Ok_0.text@),
{
}

/// A key is read from its JSON text, and kept with it.
pub proof fn law_provider_keys_are_read(source: &str, key: Option<ProviderKey>)
    requires
        call_ensures(ProviderKey::read, (source,), key),
    ensures
        key is Some <==> outside::json_text(vstd::utf8::encode_utf8(source@)) is Some,
        key matches Some(found) ==> found.source() == source@ && outside::json_text(
            vstd::utf8::encode_utf8(source@),
        ) == Some(found.document()),
{
}

/// A token is decoded only with a key that may verify its algorithm, against the
/// configured issuer and audience, the claims that must be there, and the leeway.
pub proof fn law_tokens_are_decoded_by_the_rules(
    config: OidcConfig,
    token: &str,
    algorithm: &str,
    key: ProviderKey,
    required: Seq<Seq<char>>,
    decoded: Decoded,
)
    requires
        required == seq!["exp"@, "iss"@, "aud"@],
        config.leeway_seconds <= outside::MAX_LEEWAY_SECONDS,
        call_ensures(oidc::decode_with_key, (&config, token, algorithm, &key), decoded),
    ensures
        !oidc::may_verify(key.document(), algorithm@) ==> decoded is Refused,
        decoded matches Decoded::Verified(claims) ==> exists|now: u64|
            #[trigger] outside::token_claims_of(
                token@,
                key.source(),
                algorithm@,
                config.issuer@,
                config.audience@,
                required,
                config.leeway_seconds,
                true,
                now,
            ) == Ok::<JsonView, bool>(claims@),
{
    if let Decoded::Verified(claims) = decoded {
        let now = choose|now: u64|
            decoded@ == #[trigger] oidc::checked_at(
                config@,
                token@,
                algorithm@,
                key.source(),
                now,
            );
        assert(oidc::required_claims() =~= required);
        assert(outside::token_claims_of(
            token@,
            key.source(),
            algorithm@,
            config.issuer@,
            config.audience@,
            required,
            config.leeway_seconds,
            true,
            now,
        ) == Ok::<JsonView, bool>(claims@));
    }
}

/// A token is admitted by the header that it has.
pub proof fn law_tokens_are_admitted_by_their_header(
    token: &str,
    header: Option<(String, Option<String>)>,
    allowed: Vec<String>,
    by_header: Option<(String, String)>,
    admitted: Option<(String, String)>,
)
    requires
        outside::jwt_header_of(token@) == outside::header_view(header),
        call_ensures(oidc::admit_header, (&header, &allowed), by_header),
        call_ensures(oidc::admit_token, (token, &allowed), admitted),
    ensures
        admitted is Some <==> by_header is Some,
        admitted matches Some((algorithm, kid)) ==> (by_header matches Some((named, key))
            && algorithm@ == named@ && kid@ == key@),
{
}

/// An accepted issuer is a URL without a query and without a fragment; one with
/// either is refused by name.
pub proof fn law_issuers_have_no_query(
    found: OidcSettings,
    issuer: String,
    audience: String,
    allow_http: bool,
    issuer_text: &str,
    url: UrlParts,
    config: Result<Option<OidcConfig>, String>,
)
    requires
        call_ensures(OidcConfig::from_settings, (&found,), config),
        found.enabled matches Some(word) && text::same_ignoring_case(word@, "true"@),
        found.mode is None,
        found.issuer == Some(issuer),
        found.audience == Some(audience),
        text::trimmed(issuer@).len() > 0,
        text::trimmed(audience@).len() > 0,
        allow_http == (found.allow_http matches Some(word) && text::same_ignoring_case(
            word@,
            "true"@,
        )),
        issuer_text@ == text::trimmed(issuer@),
        call_ensures(
            oidc::parse_provider_url,
            ("ADMIN_UI_OIDC_ISSUER", issuer_text, allow_http),
            Ok(url),
        ),
    ensures
        url.query is Some || url.fragment is Some ==> (config matches Err(message) && message@
            == "ADMIN_UI_OIDC_ISSUER cannot contain a query string or fragment"@),
        config matches Ok(Some(_)) ==> url.query is None && url.fragment is None,
{
}

} // verus!
