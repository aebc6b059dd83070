//! Administration: who may administer, single sign-on, the manual changes of
//! the blocklist, and the documents that administrators are shown.
use vstd::prelude::*;
use crate::audit;
use crate::audit::{EventView, SecurityEvent};
use crate::auth;
use crate::blocklist::{BlocklistState, BlocklistStats, BlocklistView, IpAction};
use crate::headers;
use crate::headers::Headers;
use crate::json;
use crate::json::{Json, JsonObject, JsonView};
use crate::mfa;
use crate::oidc::OidcError;
use crate::origin;
use crate::origin::{ProxiesView, TrustedProxies};
use crate::outside;
use crate::reply;
use crate::reply::{Reply, ReplyView};
use crate::settings;
use crate::text;
use crate::webhook::Effect;

verus! {

/// The texts among some values.
pub open spec fn texts_among(items: Seq<JsonView>) -> Seq<Seq<char>>
    decreases items.len(),
{
    if items.len() == 0 {
        Seq::empty()
    } else {
        let before = texts_among(items.drop_last());
        match json::text_of(Some(items.last())) {
            Some(s) => before.push(s),
            None => before,
        }
    }
}

/// The values of a claim: the entries of a text, or the texts of an array.
pub open spec fn values_of(claim: Option<JsonView>) -> Seq<Seq<char>> {
    match claim {
        Some(JsonView::Text(s)) => text::listed(s),
        Some(JsonView::Array(items)) => texts_among(items),
        _ => Seq::empty(),
    }
}

/// The values of a claim.
pub fn claim_values(claims: &Json, name: &str) -> (r: Vec<String>)
    ensures
        text::views(r@) == values_of(json::member(claims@, name@)),
{
    let none: Vec<String> = Vec::new();
    assert(text::views(none@) =~= Seq::<Seq<char>>::empty());
    match claims.get(name) {
        Some(Json::Text(s)) => text::list_entries(s.as_str()),
        Some(Json::Array(items)) => array_texts(items),
        _ => none,
    }
}

/// The texts of an array.
fn array_texts(items: &Vec<Json>) -> (r: Vec<String>)
    ensures
        text::views(r@) == texts_among(json::items_view(items@, items@.len())),
{
    let ghost views = json::items_view(items@, items@.len());
    proof {
        json::lemma_items_index(items@, items@.len());
    }
    let mut out: Vec<String> = Vec::new();
    let mut i: usize = 0;
    assert(text::views(out@) =~= texts_among(views.take(0)));
    while i < items.len()
        invariant
            i <= items@.len(),
            views == json::items_view(items@, items@.len()),
            views.len() == items@.len(),
            forall|j: int| 0 <= j < items@.len() ==> #[trigger] views[j] == items@[j]@,
            text::views(out@) == texts_among(views.take(i as int)),
        decreases items@.len() - i,
    {
        let ghost now = views.take(i + 1);
        let ghost before = text::views(out@);
        assert(now.drop_last() =~= views.take(i as int));
        assert(now.last() == items@[i as int]@);
        if let Some(s) = items[i].as_text() {
            out.push(s.to_string());
            assert(text::views(out@) =~= before.push(s@));
        }
        i += 1;
    }
    assert(views.take(i as int) =~= views);
    out
}

/// A claim is a text, or an array with that text.
pub open spec fn claim_says(claim: Option<JsonView>, expected: Seq<char>) -> bool {
    match claim {
        Some(JsonView::Text(s)) => s == expected,
        Some(JsonView::Array(items)) => items.contains(JsonView::Text(expected)),
        _ => false,
    }
}

/// Whether a claim is a text, or an array with that text.
pub fn claim_matches(claims: &Json, name: &str, expected: &str) -> (r: bool)
    ensures
        r == claim_says(json::member(claims@, name@), expected@),
{
    match claims.get(name) {
        Some(Json::Text(s)) => text::text_eq(s.as_str(), expected),
        Some(Json::Array(items)) => json::has_text(items, expected),
        _ => false,
    }
}

/// What is asked of an administrator who signs on with OpenID Connect.
#[derive(Debug)]
pub struct OidcRules {
    pub token_header: Option<String>,
    pub jwt_secret: Option<String>,
    pub issuer: Option<String>,
    pub audience: Option<String>,
    pub required_role: Option<String>,
    pub required_group: Option<String>,
}

/// The texts of the rules.
pub ghost struct OidcRulesView {
    pub token_header: Option<Seq<char>>,
    pub jwt_secret: Option<Seq<char>>,
    pub issuer: Option<Seq<char>>,
    pub audience: Option<Seq<char>>,
    pub required_role: Option<Seq<char>>,
    pub required_group: Option<Seq<char>>,
}

impl View for OidcRules {
    type V = OidcRulesView;

    open spec fn view(&self) -> OidcRulesView {
        OidcRulesView {
            token_header: text::opt_view(self.token_header),
            jwt_secret: text::opt_view(self.jwt_secret),
            issuer: text::opt_view(self.issuer),
            audience: text::opt_view(self.audience),
            required_role: text::opt_view(self.required_role),
            required_group: text::opt_view(self.required_group),
        }
    }
}

/// A list meets what is required: nothing, or something it holds.
pub open spec fn meets(required: Option<Seq<char>>, list: Seq<Seq<char>>) -> bool {
    match auth::configured(required) {
        Some(name) => list.contains(name),
        None => true,
    }
}

/// Whether a list meets what is required.
fn list_meets(required: Option<&str>, list: &Vec<String>) -> (r: bool)
    ensures
        r == meets(text::opt_str_view(required), text::views(list@)),
{
    match required {
        Some(name) => name.is_empty() || text::list_has(list, name),
        None => true,
    }
}

/// The name by which claims know a user: the first of three claims that is there.
pub open spec fn username_of(claims: JsonView) -> Seq<char> {
    let claim = match (
        json::member(claims, "preferred_username"@),
        json::member(claims, "email"@),
    ) {
        (Some(value), _) => Some(value),
        (None, Some(value)) => Some(value),
        (None, None) => json::member(claims, "sub"@),
    };
    match json::text_of(claim) {
        Some(name) => name,
        None => "unknown"@,
    }
}

/// The name by which claims know a user.
fn find_username(claims: &Json) -> (r: String)
    ensures
        r@ == username_of(claims@),
{
    let claim = match claims.get("preferred_username") {
        Some(value) => Some(value),
        None => match claims.get("email") {
            Some(value) => Some(value),
            None => claims.get("sub"),
        },
    };
    match claim {
        Some(value) => match value.as_text() {
            Some(name) => name.to_string(),
            None => "unknown".to_string(),
        },
        None => "unknown".to_string(),
    }
}

/// The roles and groups of claims.
pub open spec fn roles_of(claims: JsonView) -> Seq<Seq<char>> {
    values_of(json::member(claims, "roles"@)) + values_of(json::member(claims, "groups"@))
}

/// What a user with verified claims is answered.
pub open spec fn user_outcome(claims: JsonView, rules: OidcRulesView) -> Result<
    JsonView,
    ReplyView,
> {
    let roles = roles_of(claims);
    if !meets(rules.required_role, roles) {
        Err(reply::refusal(reply::FORBIDDEN, "Insufficient role"@))
    } else if !meets(rules.required_group, roles) {
        Err(reply::refusal(reply::FORBIDDEN, "Insufficient group"@))
    } else {
        Ok(
            JsonView::Object(
                map![
                    "status"@ => JsonView::Text("success"@),
                    "provider"@ => JsonView::Text("oidc"@),
                    "username"@ => JsonView::Text(username_of(claims)),
                    "roles"@ => json::texts_view(roles),
                ],
            ),
        )
    }
}

/// What a user with verified claims is answered.
pub fn verified_user(claims: &Json, rules: &OidcRules) -> (r: Result<Json, Reply>)
    ensures
        reply::outcome(r) == user_outcome(claims@, rules@),
{
    let mut roles = claim_values(claims, "roles");
    let mut groups = claim_values(claims, "groups");
    let ghost first = roles@;
    let ghost second = groups@;
    roles.append(&mut groups);
    assert(text::views(roles@) =~= text::views(first) + text::views(second));
    if !list_meets(text::borrowed(&rules.required_role), &roles) {
        return Err(reply::refuse(reply::FORBIDDEN, "Insufficient role"));
    }
    if !list_meets(text::borrowed(&rules.required_group), &roles) {
        return Err(reply::refuse(reply::FORBIDDEN, "Insufficient group"));
    }
    let username = find_username(claims);
    let mut body = JsonObject::new();
    body.put("status", json::text_value("success"));
    body.put("provider", json::text_value("oidc"));
    body.put("username", json::text_value(username.as_str()));
    body.put("roles", json::text_array(&roles));
    Ok(Json::Object(body))
}

/// The token that a request signs on with: the bearer token, else the text of
/// the configured header.
pub open spec fn sign_on_token(
    entries: Seq<(Seq<char>, Option<Seq<char>>)>,
    token_header: Option<Seq<char>>,
) -> Option<Seq<char>> {
    match auth::bearer_of(entries) {
        Some(token) => Some(token),
        None => headers::header_text(
            entries,
            settings::string_setting(token_header, "X-SSO-Token"@),
        ),
    }
}

/// The token that a request signs on with.
pub fn sso_token(headers: &Headers, rules: &OidcRules) -> (r: Option<String>)
    ensures
        text::opt_view(r) == sign_on_token(headers@, rules@.token_header),
{
    match auth::bearer_token(headers) {
        Some(token) => Some(token),
        None => {
            let name = settings::env_string(text::borrowed(&rules.token_header), "X-SSO-Token");
            text::owned(headers.get(name.as_str()))
        },
    }
}

/// The claims are those of the expected issuer and audience, where such are configured.
pub open spec fn claims_fit(claims: JsonView, rules: OidcRulesView) -> bool {
    &&& match auth::configured(rules.issuer) {
        Some(issuer) => json::text_of(json::member(claims, "iss"@)) == Some(issuer),
        None => true,
    }
    &&& match auth::configured(rules.audience) {
        Some(audience) => claim_says(json::member(claims, "aud"@), audience),
        None => true,
    }
}

/// Whether the claims are those of the expected issuer and audience.
fn check_claims(claims: &Json, rules: &OidcRules) -> (r: bool)
    ensures
        r == claims_fit(claims@, rules@),
{
    if let Some(issuer) = &rules.issuer {
        if !issuer.as_str().is_empty() {
            let fits = match claims.get_text("iss") {
                Some(found) => text::text_eq(found, issuer.as_str()),
                None => false,
            };
            if !fits {
                return false;
            }
        }
    }
    match &rules.audience {
        Some(audience) => audience.as_str().is_empty() || claim_matches(
            claims,
            "aud",
            audience.as_str(),
        ),
        None => true,
    }
}

/// What a sign-on with a token that a shared secret signed is answered.
pub open spec fn oidc_outcome(
    entries: Seq<(Seq<char>, Option<Seq<char>>)>,
    rules: OidcRulesView,
    now: int,
) -> Result<JsonView, ReplyView> {
    match (sign_on_token(entries, rules.token_header), auth::configured(rules.jwt_secret)) {
        (None, _) => Err(reply::unauthorized_view()),
        (Some(_), None) => Err(
            reply::refusal(reply::INTERNAL_ERROR, "OIDC JWT secret not configured"@),
        ),
        (Some(token), Some(secret)) => match auth::claims_at(token, secret, now) {
            Some(claims) if claims_fit(claims, rules) => user_outcome(claims, rules),
            _ => Err(reply::unauthorized_view()),
        },
    }
}

/// What a sign-on with a token that a shared secret signed is answered at a given time.
pub fn oidc_user_at(headers: &Headers, rules: &OidcRules, now: i64) -> (r: Result<Json, Reply>)
    ensures
        reply::outcome(r) == oidc_outcome(headers@, rules@, now as int),
{
    let token = match sso_token(headers, rules) {
        Some(token) => token,
        None => {
            return Err(reply::unauthorized());
        },
    };
    proof {
        reveal_strlit("");
        assert(""@ =~= Seq::<char>::empty());
    }
    let secret = settings::env_string(text::borrowed(&rules.jwt_secret), "");
    if secret.as_str().is_empty() {
        return Err(reply::refuse(reply::INTERNAL_ERROR, "OIDC JWT secret not configured"));
    }
    match auth::decode_hs256_jwt_at(token.as_str(), secret.as_str(), now) {
        Some(claims) => if check_claims(&claims, rules) {
            verified_user(&claims, rules)
        } else {
            Err(reply::unauthorized())
        },
        None => Err(reply::unauthorized()),
    }
}

/// What a sign-on with a token that a shared secret signed is answered.
pub fn oidc_user(headers: &Headers, rules: &OidcRules) -> (r: Result<Json, Reply>)
    ensures
        exists|now: i64|
            reply::outcome(r) == #[trigger] oidc_outcome(headers@, rules@, now as int),
{
    let now = outside::now_seconds();
    oidc_user_at(headers, rules, now)
}

/// What an administrator is told of a token that the provider's keys did not verify.
pub fn provider_refusal(error: &OidcError) -> (r: Reply)
    ensures
        r@ == match error {
            OidcError::Unauthorized => reply::unauthorized_view(),
            OidcError::Unavailable(message) => reply::refusal(
                reply::SERVICE_UNAVAILABLE,
                message@,
            ),
        },
{
    match error {
        OidcError::Unauthorized => reply::unauthorized(),
        OidcError::Unavailable(message) => reply::refuse(
            reply::SERVICE_UNAVAILABLE,
            message.as_str(),
        ),
    }
}

/// What is asked of an administrator whom a proxy in front has signed on with SAML.
#[derive(Debug)]
pub struct SamlRules {
    pub user_header: Option<String>,
    pub groups_header: Option<String>,
    pub required_group: Option<String>,
}

/// The texts of the rules.
pub ghost struct SamlRulesView {
    pub user_header: Option<Seq<char>>,
    pub groups_header: Option<Seq<char>>,
    pub required_group: Option<Seq<char>>,
}

impl View for SamlRules {
    type V = SamlRulesView;

    open spec fn view(&self) -> SamlRulesView {
        SamlRulesView {
            user_header: text::opt_view(self.user_header),
            groups_header: text::opt_view(self.groups_header),
            required_group: text::opt_view(self.required_group),
        }
    }
}

/// What a sign-on through headers of the proxy in front is answered.
pub open spec fn saml_outcome(
    entries: Seq<(Seq<char>, Option<Seq<char>>)>,
    rules: SamlRulesView,
) -> Result<JsonView, ReplyView> {
    let username = auth::header_or_empty(
        entries,
        settings::string_setting(rules.user_header, "X-SSO-User"@),
    );
    let groups = text::listed(
        auth::header_or_empty(
            entries,
            settings::string_setting(rules.groups_header, "X-SSO-Groups"@),
        ),
    );
    if username.len() == 0 {
        Err(reply::unauthorized_view())
    } else if !meets(rules.required_group, groups) {
        Err(reply::refusal(reply::FORBIDDEN, "Insufficient group"@))
    } else {
        Ok(
            JsonView::Object(
                map![
                    "status"@ => JsonView::Text("success"@),
                    "provider"@ => JsonView::Text("saml"@),
                    "username"@ => JsonView::Text(username),
                    "groups"@ => json::texts_view(groups),
                ],
            ),
        )
    }
}

/// What a sign-on through headers of the proxy in front is answered.
pub fn saml_user(headers: &Headers, rules: &SamlRules) -> (r: Result<Json, Reply>)
    ensures
        reply::outcome(r) == saml_outcome(headers@, rules@),
{
    proof {
        reveal_strlit("");
        assert(""@ =~= Seq::<char>::empty());
    }
    let user_header = settings::env_string(text::borrowed(&rules.user_header), "X-SSO-User");
    let groups_header = settings::env_string(text::borrowed(&rules.groups_header), "X-SSO-Groups");
    let username = headers.get(user_header.as_str()).unwrap_or("");
    if username.is_empty() {
        return Err(reply::unauthorized());
    }
    let groups = text::list_entries(headers.get(groups_header.as_str()).unwrap_or(""));
    if !list_meets(text::borrowed(&rules.required_group), &groups) {
        return Err(reply::refuse(reply::FORBIDDEN, "Insufficient group"));
    }
    let mut body = JsonObject::new();
    body.put("status", json::text_value("success"));
    body.put("provider", json::text_value("saml"));
    body.put("username", json::text_value(username));
    body.put("groups", json::text_array(&groups));
    Ok(Json::Object(body))
}

/// How administrators sign on.
#[derive(Debug, Clone, Copy, PartialEq, Eq, Structural)]
pub enum SsoMode {
    Disabled,
    Saml,
    Oidc,
    Unsupported,
}

/// How administrators sign on, as the settings say.
pub open spec fn mode_of(enabled: Option<Seq<char>>, mode: Option<Seq<char>>) -> SsoMode {
    let name = settings::string_setting(mode, "oidc"@);
    if !settings::flag_setting(enabled, false) {
        SsoMode::Disabled
    } else if text::lower(name) == "saml"@ {
        SsoMode::Saml
    } else if text::lower(name) == "oidc"@ {
        SsoMode::Oidc
    } else {
        SsoMode::Unsupported
    }
}

/// How administrators sign on, as the settings say.
pub fn sso_mode(enabled: Option<&str>, mode: Option<&str>) -> (r: SsoMode)
    ensures
        r == mode_of(text::opt_str_view(enabled), text::opt_str_view(mode)),
{
    if !settings::env_bool(enabled, false) {
        return SsoMode::Disabled;
    }
    let name = text::to_lower(settings::env_string(mode, "oidc").as_str());
    if text::text_eq(name.as_str(), "saml") {
        SsoMode::Saml
    } else if text::text_eq(name.as_str(), "oidc") {
        SsoMode::Oidc
    } else {
        SsoMode::Unsupported
    }
}

/// What a sign-on is answered.
pub open spec fn sso_outcome(
    mode: SsoMode,
    entries: Seq<(Seq<char>, Option<Seq<char>>)>,
    oidc: OidcRulesView,
    saml: SamlRulesView,
    now: int,
) -> Result<JsonView, ReplyView> {
    match mode {
        SsoMode::Disabled => Ok(JsonView::Object(map!["status"@ => JsonView::Text("disabled"@)])),
        SsoMode::Saml => saml_outcome(entries, saml),
        SsoMode::Oidc => oidc_outcome(entries, oidc, now),
        SsoMode::Unsupported => Err(reply::refusal(reply::BAD_REQUEST, "unsupported SSO mode"@)),
    }
}

/// What a sign-on is answered at a given time, where no provider's keys are used.
pub fn sso_user(
    mode: SsoMode,
    headers: &Headers,
    oidc: &OidcRules,
    saml: &SamlRules,
    now: i64,
) -> (r: Result<Json, Reply>)
    ensures
        reply::outcome(r) == sso_outcome(mode, headers@, oidc@, saml@, now as int),
{
    match mode {
        SsoMode::Disabled => {
            let mut body = JsonObject::new();
            body.put("status", json::text_value("disabled"));
            Ok(Json::Object(body))
        },
        SsoMode::Saml => saml_user(headers, saml),
        SsoMode::Oidc => oidc_user_at(headers, oidc, now),
        SsoMode::Unsupported => Err(reply::refuse(reply::BAD_REQUEST, "unsupported SSO mode")),
    }
}

/// The key under which the session of a request is stored: the hash of its
/// bearer token.
pub open spec fn session_of(entries: Seq<(Seq<char>, Option<Seq<char>>)>) -> Option<Seq<char>> {
    match auth::bearer_of(entries) {
        Some(token) => Some(mfa::hash_of(token)),
        None => None,
    }
}

/// The key under which the session of a request is stored.
pub fn session_key(headers: &Headers) -> (r: Option<String>)
    ensures
        text::opt_view(r) == session_of(headers@),
{
    match auth::bearer_token(headers) {
        Some(token) => Some(mfa::hash_secret(token.as_str())),
        None => None,
    }
}

/// The request may administer: it shows a secret, or its session is one of
/// those that are stored and not expired.
pub open spec fn may_administer(
    entries: Seq<(Seq<char>, Option<Seq<char>>)>,
    api_key: Option<Seq<char>>,
    jwt_secret: Option<Seq<char>>,
    live_sessions: Set<Seq<char>>,
    now: int,
) -> bool {
    ||| auth::authorized(entries, api_key, jwt_secret, now)
    ||| match session_of(entries) {
        Some(key) => live_sessions.contains(key),
        None => false,
    }
}

/// Whether a request may administer at a given time. `live` lists the sessions
/// that were found under the request's session key.
pub fn is_administrator_at(
    headers: &Headers,
    api_key: Option<&str>,
    jwt_secret: Option<&str>,
    live: &Vec<String>,
    now: i64,
) -> (r: bool)
    ensures
        r == may_administer(
            headers@,
            text::opt_str_view(api_key),
            text::opt_str_view(jwt_secret),
            text::views(live@).to_set(),
            now as int,
        ),
{
    if auth::is_authorized_at(headers, api_key, jwt_secret, now) {
        return true;
    }
    match session_key(headers) {
        Some(key) => text::list_has(live, key.as_str()),
        None => false,
    }
}

/// The answer to a change of one address.
pub open spec fn changed(ip: Seq<char>) -> JsonView {
    JsonView::Object(
        map!["status"@ => JsonView::Text("success"@), "ip"@ => JsonView::Text(ip)],
    )
}

/// The answer to a change of one address.
fn say_changed(ip: &str) -> (r: Json)
    ensures
        r@ == changed(ip@),
{
    let mut body = JsonObject::new();
    body.put("status", json::text_value("success"));
    body.put("ip", json::text_value(ip));
    Json::Object(body)
}

/// What an administrator's block leads to. An address that may not be blocked
/// changes nothing, though the attempt is recorded.
pub open spec fn block_effect(
    authorized: bool,
    ip: Option<Seq<char>>,
    reason: Option<Seq<char>>,
    list: BlocklistView,
    proxies: ProxiesView,
) -> Effect {
    match ip {
        _ if !authorized => Effect {
            outcome: Err(reply::unauthorized_view()),
            event: None,
            list,
        },
        Some(ip) => Effect {
            outcome: Ok(changed(ip)),
            event: Some(
                EventView {
                    event_type: "admin_block_ip"@,
                    actor: "admin"@,
                    payload: JsonView::Object(
                        map![
                            "ip"@ => JsonView::Text(ip),
                            "reason"@ => json::text_or_null(reason),
                        ],
                    ),
                },
            ),
            list: if origin::is_blockable(ip, proxies) {
                BlocklistView { blocked: list.blocked.insert(ip), ..list }
            } else {
                list
            },
        },
        None => Effect { outcome: Ok(reply::error_body("ip required"@)), event: None, list },
    }
}

/// Blocks an address for an administrator.
pub fn block(
    state: &mut BlocklistState,
    authorized: bool,
    action: &IpAction,
    proxies: &TrustedProxies,
) -> (r: (Result<Json, Reply>, Option<SecurityEvent>))
    requires
        old(state).well_formed(),
    ensures
        final(state).well_formed(),
        (Effect {
            outcome: reply::outcome(r.0),
            event: audit::opt_event(r.1),
            list: final(state)@,
        }) == block_effect(
            authorized,
            text::opt_view(action.ip),
            text::opt_view(action.reason),
            old(state)@,
            proxies@,
        ),
{
    if !authorized {
        return (Err(reply::unauthorized()), None);
    }
    match &action.ip {
        Some(ip) => {
            state.block(ip.as_str(), proxies);
            let mut payload = JsonObject::new();
            payload.put("ip", json::text_value(ip.as_str()));
            payload.put("reason", json::optional_text(text::borrowed(&action.reason)));
            (
                Ok(say_changed(ip.as_str())),
                Some(audit::event("admin_block_ip", "admin", Json::Object(payload))),
            )
        },
        None => (Ok(reply::error_document("ip required")), None),
    }
}

/// What an administrator's release leads to.
pub open spec fn unblock_effect(
    authorized: bool,
    ip: Option<Seq<char>>,
    list: BlocklistView,
) -> Effect {
    match ip {
        _ if !authorized => Effect {
            outcome: Err(reply::unauthorized_view()),
            event: None,
            list,
        },
        Some(ip) => Effect {
            outcome: Ok(changed(ip)),
            event: Some(
                EventView {
                    event_type: "admin_unblock_ip"@,
                    actor: "admin"@,
                    payload: JsonView::Object(map!["ip"@ => JsonView::Text(ip)]),
                },
            ),
            list: BlocklistView { blocked: list.blocked.remove(ip), ..list },
        },
        None => Effect { outcome: Ok(reply::error_body("ip required"@)), event: None, list },
    }
}

/// Releases an address for an administrator.
pub fn unblock(state: &mut BlocklistState, authorized: bool, action: &IpAction) -> (r: (
    Result<Json, Reply>,
    Option<SecurityEvent>,
))
    requires
        old(state).well_formed(),
    ensures
        final(state).well_formed(),
        (Effect {
            outcome: reply::outcome(r.0),
            event: audit::opt_event(r.1),
            list: final(state)@,
        }) == unblock_effect(authorized, text::opt_view(action.ip), old(state)@),
{
    if !authorized {
        return (Err(reply::unauthorized()), None);
    }
    match &action.ip {
        Some(ip) => {
            state.allow(ip.as_str());
            let mut payload = JsonObject::new();
            payload.put("ip", json::text_value(ip.as_str()));
            (
                Ok(say_changed(ip.as_str())),
                Some(audit::event("admin_unblock_ip", "admin", Json::Object(payload))),
            )
        },
        None => (Ok(reply::error_document("ip required")), None),
    }
}

/// No plugins.
pub open spec fn no_plugins() -> JsonView {
    JsonView::Array(Seq::empty())
}

/// An array without items.
fn empty_array() -> (r: Json)
    ensures
        r@ == no_plugins(),
{
    let items: Vec<Json> = Vec::new();
    Json::Array(items)
}

/// What an update of the plugins is answered, and recorded as.
pub fn update_plugins(authorized: bool) -> (r: (Result<Json, Reply>, Option<SecurityEvent>))
    ensures
        reply::outcome(r.0) == (if authorized {
            Ok::<JsonView, ReplyView>(
                JsonView::Object(
                    map!["status"@ => JsonView::Text("success"@), "plugins"@ => no_plugins()],
                ),
            )
        } else {
            Err::<JsonView, ReplyView>(reply::unauthorized_view())
        }),
        audit::opt_event(r.1) == (if authorized {
            Some(
                EventView {
                    event_type: "admin_update_plugins"@,
                    actor: "admin"@,
                    payload: JsonView::Object(map!["plugins"@ => no_plugins()]),
                },
            )
        } else {
            None
        }),
{
    if !authorized {
        return (Err(reply::unauthorized()), None);
    }
    let mut body = JsonObject::new();
    body.put("status", json::text_value("success"));
    body.put("plugins", empty_array());
    let mut payload = JsonObject::new();
    payload.put("plugins", empty_array());
    (
        Ok(Json::Object(body)),
        Some(audit::event("admin_update_plugins", "admin", Json::Object(payload))),
    )
}

/// The document of the plugins: there are none, and none are loaded.
pub fn plugins() -> (r: Json)
    ensures
        r@ == JsonView::Object(
            map!["plugins"@ => no_plugins(), "dynamic_plugins"@ => JsonView::Bool(false)],
        ),
{
    let mut body = JsonObject::new();
    body.put("plugins", empty_array());
    body.put("dynamic_plugins", Json::Bool(false));
    Json::Object(body)
}

/// The document of the settings.
pub fn settings_document(port: u16) -> (r: Json)
    ensures
        r@ == JsonView::Object(
            map![
                "service"@ => JsonView::Text("admin-ui"@),
                "port"@ => JsonView::Int(port as int),
                "mode"@ => JsonView::Text("rust"@),
            ],
        ),
{
    let mut body = JsonObject::new();
    body.put("service", json::text_value("admin-ui"));
    body.put("port", Json::Unsigned(port as u64));
    body.put("mode", json::text_value("rust"));
    Json::Object(body)
}

/// The document of the metrics.
pub fn metrics_json(stats: BlocklistStats) -> (r: Json)
    ensures
        r@ == JsonView::Object(
            map![
                "blocked_count"@ => JsonView::Int(stats.blocked_count as int),
                "flagged_count"@ => JsonView::Int(stats.flagged_count as int),
                "service"@ => JsonView::Text("admin-ui"@),
            ],
        ),
{
    let mut body = JsonObject::new();
    body.put("blocked_count", Json::Unsigned(stats.blocked_count as u64));
    body.put("flagged_count", Json::Unsigned(stats.flagged_count as u64));
    body.put("service", json::text_value("admin-ui"));
    Json::Object(body)
}

/// The document of the counts of the blocklist.
pub fn block_stats(stats: BlocklistStats) -> (r: Json)
    ensures
        r@ == JsonView::Object(
            map![
                "blocked_count"@ => JsonView::Int(stats.blocked_count as int),
                "flagged_count"@ => JsonView::Int(stats.flagged_count as int),
            ],
        ),
{
    let mut body = JsonObject::new();
    body.put("blocked_count", Json::Unsigned(stats.blocked_count as u64));
    body.put("flagged_count", Json::Unsigned(stats.flagged_count as u64));
    Json::Object(body)
}

/// A request for deletion of personal data: the answer, and what is recorded.
pub fn gdpr_deletion() -> (r: (Json, SecurityEvent))
    ensures
        r.0@ == JsonView::Object(
            map![
                "status"@ => JsonView::Text("queued"@),
                "request"@ => JsonView::Text("gdpr-deletion"@),
            ],
        ),
        r.1@ == (EventView {
            event_type: "gdpr_deletion_requested"@,
            actor: "admin"@,
            payload: JsonView::Object(
                map!["processor"@ => JsonView::Text("ai-scraping-defense-rust"@)],
            ),
        }),
{
    let mut body = JsonObject::new();
    body.put("status", json::text_value("queued"));
    body.put("request", json::text_value("gdpr-deletion"));
    let mut payload = JsonObject::new();
    payload.put("processor", json::text_value("ai-scraping-defense-rust"));
    (
        Json::Object(body),
        audit::event("gdpr_deletion_requested", "admin", Json::Object(payload)),
    )
}

/// The report on personal data: no records are held.
pub fn gdpr_report() -> (r: Json)
    ensures
        r@ == JsonView::Object(
            map![
                "status"@ => JsonView::Text("ok"@),
                "processor"@ => JsonView::Text("ai-scraping-defense-rust"@),
                "records"@ => JsonView::Array(Seq::empty()),
            ],
        ),
{
    let mut body = JsonObject::new();
    body.put("status", json::text_value("ok"));
    body.put("processor", json::text_value("ai-scraping-defense-rust"));
    body.put("records", empty_array());
    Json::Object(body)
}

/// An operation that is carried out later: the answer, and what is recorded.
pub fn operation_queued(operation: &str) -> (r: (Json, SecurityEvent))
    ensures
        r.0@ == JsonView::Object(
            map![
                "status"@ => JsonView::Text("queued"@),
                "operation"@ => JsonView::Text(operation@),
            ],
        ),
        r.1@ == (EventView {
            event_type: "admin_operation_queued"@,
            actor: "admin"@,
            payload: JsonView::Object(map!["operation"@ => JsonView::Text(operation@)]),
        }),
{
    let mut body = JsonObject::new();
    body.put("status", json::text_value("queued"));
    body.put("operation", json::text_value(operation));
    let mut payload = JsonObject::new();
    payload.put("operation", json::text_value(operation));
    (
        Json::Object(body),
        audit::event("admin_operation_queued", "admin", Json::Object(payload)),
    )
}

/// The refusal where nothing is stored.
pub open spec fn storage_refusal() -> ReplyView {
    reply::refusal(
        reply::SERVICE_UNAVAILABLE,
        "Postgres is required for persisted admin auth state"@,
    )
}

/// The refusal where nothing is stored.
pub fn storage_required() -> (r: Reply)
    ensures
        r@ == storage_refusal(),
{
    reply::refuse(
        reply::SERVICE_UNAVAILABLE,
        "Postgres is required for persisted admin auth state",
    )
}

/// The refusal where the store failed.
pub fn internal_error(message: &str) -> (r: Reply)
    ensures
        r@ == reply::refusal(reply::INTERNAL_ERROR, message@),
{
    reply::refuse(reply::INTERNAL_ERROR, message)
}

/// Nobody signs on without a token, whatever is configured.
pub proof fn law_no_token_no_sign_on(
    entries: Seq<(Seq<char>, Option<Seq<char>>)>,
    rules: OidcRulesView,
    now: int,
)
    requires
        sign_on_token(entries, rules.token_header) is None,
    ensures
        oidc_outcome(entries, rules, now) == Err::<JsonView, ReplyView>(
            reply::unauthorized_view(),
        ),
{
}

/// Whoever signs on has the role and the group that are required.
pub proof fn law_sign_on_needs_role_and_group(claims: JsonView, rules: OidcRulesView)
    ensures
        user_outcome(claims, rules) is Ok ==> meets(rules.required_role, roles_of(claims)) && meets(
            rules.required_group,
            roles_of(claims),
        ),
{
}

/// Signing on needs claims that the shared secret signed, for the issuer and
/// the audience that are configured, and that have not expired.
pub proof fn law_sign_on_needs_signed_claims(
    entries: Seq<(Seq<char>, Option<Seq<char>>)>,
    rules: OidcRulesView,
    now: int,
)
    ensures
        oidc_outcome(entries, rules, now) is Ok ==> {
            &&& sign_on_token(entries, rules.token_header) is Some
            &&& auth::configured(rules.jwt_secret) is Some
            &&& auth::claims_at(
                sign_on_token(entries, rules.token_header)->0,
                auth::configured(rules.jwt_secret)->0,
                now,
            ) matches Some(claims) && claims_fit(claims, rules)
        },
{
}

/// Without a configured secret nobody administers but by a live session.
pub proof fn law_administration_is_closed_by_default(
    entries: Seq<(Seq<char>, Option<Seq<char>>)>,
    api_key: Option<Seq<char>>,
    jwt_secret: Option<Seq<char>>,
    live_sessions: Set<Seq<char>>,
    now: int,
)
    requires
        auth::configured(api_key) is None,
        auth::configured(jwt_secret) is None,
    ensures
        may_administer(entries, api_key, jwt_secret, live_sessions, now) ==> session_of(
            entries,
        ) is Some && live_sessions.contains(session_of(entries)->0),
{
    auth::law_no_secret_opens_nothing(entries, api_key, jwt_secret, now);
}

/// Requests without authorization change nothing and leave no record.
pub proof fn law_unauthorized_changes_nothing(
    ip: Option<Seq<char>>,
    reason: Option<Seq<char>>,
    list: BlocklistView,
    proxies: ProxiesView,
)
    ensures
        block_effect(false, ip, reason, list, proxies).list == list,
        block_effect(false, ip, reason, list, proxies).event is None,
        unblock_effect(false, ip, list).list == list,
        unblock_effect(false, ip, list).event is None,
{
}

/// A release undoes a block.
pub proof fn law_unblock_undoes_block(
    ip: Seq<char>,
    reason: Option<Seq<char>>,
    list: BlocklistView,
    proxies: ProxiesView,
)
    requires
        !list.blocked.contains(ip),
    ensures
        unblock_effect(
            true,
            Some(ip),
            block_effect(true, Some(ip), reason, list, proxies).list,
        ).list == list,
{
    let after = unblock_effect(
        true,
        Some(ip),
        block_effect(true, Some(ip), reason, list, proxies).list,
    ).list;
    assert(after.blocked =~= list.blocked);
}

} // verus!
