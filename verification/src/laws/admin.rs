//! What sign-on and administration are owed: who is let in, who is turned away
//! and with what answer, and what a change does.
use vstd::prelude::*;
use crate::admin;
use crate::admin::{OidcRules, SamlRules, SsoMode};
use crate::audit::SecurityEvent;
use crate::auth;
use crate::blocklist::{BlocklistStats, BlocklistView};
use crate::headers;
use crate::headers::Headers;
use crate::json;
use crate::json::{Json, JsonView};
use crate::laws::answers;
use crate::laws::answers::{refuses, says};
use crate::laws::texts;
use crate::mfa;
use crate::oidc::OidcError;
use crate::origin;
use crate::origin::ProxiesView;
use crate::reply::Reply;
use crate::text;

verus! {

/// Nothing is asked, or what is asked is in the list.
pub open spec fn asks_only(required: Option<String>, list: Set<Seq<char>>) -> bool {
    required matches Some(name) ==> name@.len() > 0 ==> list.contains(name@)
}

/// What tells these names apart.
proof fn lemma_user_names_differ()
    ensures
        "status"@.len() == 6,
        "provider"@.len() == 8,
        "username"@.len() == 8,
        "roles"@.len() == 5,
        "groups"@.len() == 6,
        "status"@[0] == 's',
        "groups"@[0] == 'g',
        "provider"@[0] == 'p',
        "username"@[0] == 'u',
{
    reveal_strlit("status");
    reveal_strlit("provider");
    reveal_strlit("username");
    reveal_strlit("roles");
    reveal_strlit("groups");
}

/// A user is let in exactly where the roles and the groups of the verified claims,
/// taken together, hold the required role and the required group; who lacks one
/// is answered 403.
pub proof fn law_members_sign_on(
    claims: Json,
    rules: OidcRules,
    roles: Vec<String>,
    groups: Vec<String>,
    answer: Result<Json, Reply>,
)
    requires
        call_ensures(admin::claim_values, (&claims, "roles"), roles),
        call_ensures(admin::claim_values, (&claims, "groups"), groups),
        call_ensures(admin::verified_user, (&claims, &rules), answer),
    ensures
        ({
            let held = text::views(roles@).to_set() + text::views(groups@).to_set();
            &&& answer is Ok <==> asks_only(rules.required_role, held) && asks_only(
                rules.required_group,
                held,
            )
            &&& !asks_only(rules.required_role, held) ==> (answer matches Err(refusal) && refuses(
                refusal@,
                403,
                "Insufficient role"@,
            ))
            &&& asks_only(rules.required_role, held) && !asks_only(rules.required_group, held) ==> (
            answer matches Err(refusal) && refuses(refusal@, 403, "Insufficient group"@))
            &&& answer matches Ok(user) ==> says(user@, "status"@, "success"@) && says(
                user@,
                "provider"@,
                "oidc"@,
            ) && json::member(user@, "roles"@) == Some(
                json::texts_view(text::views(roles@) + text::views(groups@)),
            )
        }),
{
    lemma_user_names_differ();
    answers::lemma_refusal(403, "Insufficient role"@);
    answers::lemma_refusal(403, "Insufficient group"@);
    let first = text::views(roles@);
    let second = text::views(groups@);
    let both = first + second;
    assert forall|name: Seq<char>| #[trigger] both.contains(name) <==> (first.to_set()
        + second.to_set()).contains(name) by {
        if both.contains(name) {
            let i = choose|i: int| 0 <= i < both.len() && both[i] == name;
            if i < first.len() {
                assert(first[i] == name);
            } else {
                assert(second[i - first.len()] == name);
            }
        }
        if first.contains(name) {
            let i = choose|i: int| 0 <= i < first.len() && first[i] == name;
            assert(both[i] == name);
        }
        if second.contains(name) {
            let i = choose|i: int| 0 <= i < second.len() && second[i] == name;
            assert(both[first.len() + i] == name);
        }
    }
}

/// A user is named by the preferred name, else by the email address, else by the
/// subject. A name that is no text is unknown.
pub proof fn law_users_are_named(
    claims: Json,
    rules: OidcRules,
    name: Option<Seq<char>>,
    answer: Result<Json, Reply>,
)
    requires
        call_ensures(admin::verified_user, (&claims, &rules), answer),
        answer is Ok,
        json::member(claims@, "preferred_username"@) matches Some(value) ==> name == json::text_of(
            Some(value),
        ),
        json::member(claims@, "preferred_username"@) is None ==> (json::member(claims@, "email"@)
            matches Some(value) ==> name == json::text_of(Some(value))),
        json::member(claims@, "preferred_username"@) is None && json::member(claims@, "email"@)
            is None ==> name == json::text_of(json::member(claims@, "sub"@)),
    ensures
        name matches Some(given) ==> says(answer->Ok_0@, "username"@, given),
        name is None ==> says(answer->Ok_0@, "username"@, "unknown"@),
{
    lemma_user_names_differ();
}

/// The values of a claim are the entries of its list: those between the commas
/// of a text, or the texts of an array. Any other claim has none.
pub proof fn law_claims_list_their_values(claims: Json, name: &str, values: Vec<String>)
    requires
        call_ensures(admin::claim_values, (&claims, name), values),
    ensures
        json::member(claims@, name@) matches Some(JsonView::Text(list)) ==> text::views(values@)
            == text::listed(list),
        json::member(claims@, name@) matches Some(JsonView::Array(items)) ==> forall|s: Seq<char>|
            #[trigger] text::views(values@).contains(s) <==> items.contains(JsonView::Text(s)),
        !(json::member(claims@, name@) matches Some(JsonView::Text(_))) && !(json::member(
            claims@,
            name@,
        ) matches Some(JsonView::Array(_))) ==> values@.len() == 0,
{
    assert(text::views(values@).len() == values@.len());
    if let Some(JsonView::Array(items)) = json::member(claims@, name@) {
        assert forall|s: Seq<char>|
            #[trigger] text::views(values@).contains(s) <==> items.contains(JsonView::Text(s)) by {
            lemma_texts_among(items, s);
        }
    }
}

/// The texts among some items are those items that are texts.
proof fn lemma_texts_among(items: Seq<JsonView>, s: Seq<char>)
    ensures
        admin::texts_among(items).contains(s) <==> items.contains(JsonView::Text(s)),
    decreases items.len(),
{
    if items.len() > 0 {
        let rest = items.drop_last();
        let before = admin::texts_among(rest);
        lemma_texts_among(rest, s);
        if items.contains(JsonView::Text(s)) {
            let i = choose|i: int| 0 <= i < items.len() && items[i] == JsonView::Text(s);
            if i < rest.len() {
                assert(rest[i] == JsonView::Text(s));
                let k = choose|k: int| 0 <= k < before.len() && before[k] == s;
                assert(admin::texts_among(items)[k] == s);
            } else {
                assert(admin::texts_among(items)[before.len() as int] == s);
            }
        }
        if admin::texts_among(items).contains(s) {
            let k = choose|k: int|
                0 <= k < admin::texts_among(items).len() && admin::texts_among(items)[k] == s;
            if k < before.len() {
                assert(before[k] == s);
                let i = choose|i: int| 0 <= i < rest.len() && rest[i] == JsonView::Text(s);
                assert(items[i] == JsonView::Text(s));
            } else {
                assert(items[items.len() - 1] == JsonView::Text(s));
            }
        }
    }
}

/// A claim matches a text that it is, or that it lists in an array.
pub proof fn law_claims_match(claims: Json, name: &str, expected: &str, matched: bool)
    requires
        call_ensures(admin::claim_matches, (&claims, name, expected), matched),
    ensures
        matched <==> (json::member(claims@, name@) == Some(JsonView::Text(expected@)) || (
        json::member(claims@, name@) matches Some(JsonView::Array(items)) && items.contains(
            JsonView::Text(expected@),
        ))),
{
}

/// The token of a sign-on is the bearer token; without one it is the configured
/// header, which is `X-SSO-Token` where nothing else is configured.
pub proof fn law_sign_on_takes_the_bearer_first(
    headers: Headers,
    rules: OidcRules,
    bearer: Option<String>,
    token: Option<String>,
)
    requires
        call_ensures(auth::bearer_token, (&headers,), bearer),
        call_ensures(admin::sso_token, (&headers, &rules), token),
    ensures
        bearer is Some ==> text::opt_view(token) == text::opt_view(bearer),
        bearer is None && rules.token_header is None ==> text::opt_view(token)
            == headers::header_text(headers@, "X-SSO-Token"@),
        bearer is None ==> (rules.token_header matches Some(name) ==> text::opt_view(token)
            == headers::header_text(headers@, name@)),
{
}

/// A bearer token is what follows the word in the authorization header.
pub proof fn law_bearer_tokens_are_read(headers: Headers, rest: Seq<char>, token: Option<String>)
    requires
        call_ensures(auth::bearer_token, (&headers,), token),
    ensures
        headers::header_text(headers@, "authorization"@) == Some("Bearer "@ + rest) ==> (
        token matches Some(found) && found@ == rest),
        headers::header_text(headers@, "authorization"@) is None ==> token is None,
        headers::header_text(headers@, "authorization"@) matches Some(value) ==> (
        !"Bearer "@.is_prefix_of(value) ==> token is None),
{
    let value = "Bearer "@ + rest;
    assert("Bearer "@.is_prefix_of(value)) by {
        assert(value.take("Bearer "@.len() as int) =~= "Bearer "@);
    }
    assert(value.skip("Bearer "@.len() as int) =~= rest);
}

/// A signed-on user of a shared secret is let in as the verified claims say, and
/// only with the configured issuer and audience. Without a token or with a bad
/// one the answer is 401; without a secret it is 500.
pub proof fn law_shared_secret_sign_on(
    headers: Headers,
    rules: OidcRules,
    now: i64,
    token: Option<String>,
    answer: Result<Json, Reply>,
)
    requires
        call_ensures(admin::sso_token, (&headers, &rules), token),
        call_ensures(admin::oidc_user_at, (&headers, &rules, now), answer),
    ensures
        token is None ==> (answer matches Err(refusal) && refuses(refusal@, 401, "Unauthorized"@)),
        token is Some && (rules.jwt_secret is None || rules.jwt_secret->0@.len() == 0) ==> (
        answer matches Err(refusal) && refuses(
            refusal@,
            500,
            "OIDC JWT secret not configured"@,
        )),
{
    answers::lemma_refusal(401, "Unauthorized"@);
    answers::lemma_refusal(500, "OIDC JWT secret not configured"@);
}

/// With a token and a secret, a sign-on is refused with 401 unless the token is
/// verified and its claims name the configured issuer and audience; then its
/// claims decide.
pub proof fn law_verified_claims_decide(
    headers: Headers,
    rules: OidcRules,
    now: i64,
    token: String,
    token_text: &str,
    secret: &str,
    claims: Option<Json>,
    answer: Result<Json, Reply>,
)
    requires
        call_ensures(admin::sso_token, (&headers, &rules), Some(token)),
        token@ == token_text@,
        rules.jwt_secret matches Some(configured) && configured@ == secret@,
        secret@.len() > 0,
        call_ensures(auth::decode_hs256_jwt_at, (token_text, secret, now), claims),
        call_ensures(admin::oidc_user_at, (&headers, &rules, now), answer),
    ensures
        claims is None ==> (answer matches Err(refusal) && refuses(
            refusal@,
            401,
            "Unauthorized"@,
        )),
        claims matches Some(known) ==> ({
            let issuer_fits = rules.issuer matches Some(issuer) ==> issuer@.len() > 0 ==> says(
                known@,
                "iss"@,
                issuer@,
            );
            let audience_fits = rules.audience matches Some(audience) ==> audience@.len() > 0 ==> (
            says(known@, "aud"@, audience@) || (json::member(known@, "aud"@) matches Some(
                JsonView::Array(items),
            ) && items.contains(JsonView::Text(audience@))));
            &&& !(issuer_fits && audience_fits) ==> (answer matches Err(refusal) && refuses(
                refusal@,
                401,
                "Unauthorized"@,
            ))
            &&& issuer_fits && audience_fits ==> forall|decided: Result<Json, Reply>|
                call_ensures(admin::verified_user, (&known, &rules), decided) ==> #[trigger]
                crate::reply::outcome(decided) == crate::reply::outcome(answer)
        }),
{
    answers::lemma_refusal(401, "Unauthorized"@);
}

/// What a provider says of a failed sign-on: 401, or 503 with what is unavailable.
pub proof fn law_provider_failures_are_answered(error: OidcError, answer: Reply)
    requires
        call_ensures(admin::provider_refusal, (&error,), answer),
    ensures
        error is Unauthorized ==> refuses(answer@, 401, "Unauthorized"@),
        error matches OidcError::Unavailable(message) ==> refuses(answer@, 503, message@),
{
    answers::lemma_refusal(401, "Unauthorized"@);
    if let OidcError::Unavailable(message) = error {
        answers::lemma_refusal(503, message@);
    }
}

/// A SAML user is named by the user header of the proxy in front and is let in
/// exactly where the groups header lists the required group.
pub proof fn law_saml_members_sign_on(
    headers: Headers,
    rules: SamlRules,
    user: Seq<char>,
    groups: Seq<char>,
    answer: Result<Json, Reply>,
)
    requires
        call_ensures(admin::saml_user, (&headers, &rules), answer),
        rules.user_header is None,
        rules.groups_header is None,
        headers::header_text(headers@, "X-SSO-User"@) == Some(user),
        headers::header_text(headers@, "X-SSO-Groups"@) == Some(groups),
    ensures
        user.len() == 0 ==> (answer matches Err(refusal) && refuses(
            refusal@,
            401,
            "Unauthorized"@,
        )),
        user.len() > 0 ==> ({
            let held = text::listed(groups);
            let met = rules.required_group matches Some(name) ==> name@.len() > 0 ==> held.contains(
                name@,
            );
            &&& answer is Ok <==> met
            &&& answer matches Ok(found) ==> says(found@, "status"@, "success"@) && says(
                found@,
                "provider"@,
                "saml"@,
            ) && says(found@, "username"@, user) && json::member(found@, "groups"@) == Some(
                json::texts_view(held),
            )
            &&& answer matches Err(refusal) ==> refuses(refusal@, 403, "Insufficient group"@)
        }),
{
    lemma_user_names_differ();
    answers::lemma_refusal(401, "Unauthorized"@);
    answers::lemma_refusal(403, "Insufficient group"@);
}

/// The headers of a SAML proxy go by their configured names, and a user whom
/// nobody names is turned away.
pub proof fn law_saml_headers_are_configured(
    headers: Headers,
    rules: SamlRules,
    user_header: String,
    groups_header: String,
    answer: Result<Json, Reply>,
)
    requires
        call_ensures(admin::saml_user, (&headers, &rules), answer),
        rules.user_header == Some(user_header),
        rules.groups_header == Some(groups_header),
    ensures
        headers::header_text(headers@, user_header@) is None ==> (answer matches Err(refusal)
            && refuses(refusal@, 401, "Unauthorized"@)),
        answer matches Ok(found) ==> (headers::header_text(headers@, user_header@) matches Some(
            user,
        ) && says(found@, "username"@, user)),
        answer is Ok ==> (rules.required_group matches Some(name) ==> name@.len() > 0 ==> (
        headers::header_text(headers@, groups_header@) matches Some(groups) && text::listed(
            groups,
        ).contains(name@))),
{
    lemma_user_names_differ();
    answers::lemma_refusal(401, "Unauthorized"@);
    answers::lemma_refusal(403, "Insufficient group"@);
    texts::lemma_nothing_listed();
}

/// What tells these names apart.
proof fn lemma_modes_differ()
    ensures
        "saml"@[0] == 's',
        "oidc"@[0] == 'o',
        "true"@[0] == 't',
{
    reveal_strlit("saml");
    reveal_strlit("oidc");
    reveal_strlit("true");
}

/// Sign-on is off unless it is switched on, and goes by OpenID Connect unless
/// SAML is named, in whatever case.
pub proof fn law_sign_on_modes(enabled: Option<&str>, mode: Option<&str>, chosen: SsoMode)
    requires
        call_ensures(admin::sso_mode, (enabled, mode), chosen),
    ensures
        chosen is Disabled <==> !(enabled matches Some(word) && text::same_ignoring_case(
            word@,
            "true"@,
        )),
        chosen is Saml ==> (mode matches Some(name) && text::lower(name@) == "saml"@),
        chosen is Oidc ==> (mode matches Some(name) ==> text::lower(name@) == "oidc"@),
        !(chosen is Disabled) ==> {
            &&& mode is None ==> chosen is Oidc
            &&& mode matches Some(name) ==> {
                &&& text::lower(name@) == "saml"@ ==> chosen is Saml
                &&& text::lower(name@) == "oidc"@ ==> chosen is Oidc
                &&& text::lower(name@) != "saml"@ && text::lower(name@) != "oidc"@ ==> chosen
                    is Unsupported
            }
        },
{
    lemma_modes_differ();
    reveal_strlit("oidc");
    assert(text::lower("oidc"@) =~= "oidc"@);
}

/// Each mode signs on in its own way.
pub proof fn law_modes_sign_on_their_way(
    mode: SsoMode,
    headers: Headers,
    oidc: OidcRules,
    saml: SamlRules,
    now: i64,
    answer: Result<Json, Reply>,
    by_saml: Result<Json, Reply>,
    by_oidc: Result<Json, Reply>,
)
    requires
        call_ensures(admin::sso_user, (mode, &headers, &oidc, &saml, now), answer),
        call_ensures(admin::saml_user, (&headers, &saml), by_saml),
        call_ensures(admin::oidc_user_at, (&headers, &oidc, now), by_oidc),
    ensures
        mode is Disabled ==> (answer matches Ok(found) && says(found@, "status"@, "disabled"@)),
        mode is Saml ==> crate::reply::outcome(answer) == crate::reply::outcome(by_saml),
        mode is Oidc ==> crate::reply::outcome(answer) == crate::reply::outcome(by_oidc),
        mode is Unsupported ==> (answer matches Err(refusal) && refuses(
            refusal@,
            400,
            "unsupported SSO mode"@,
        )),
{
    answers::lemma_refusal(400, "unsupported SSO mode"@);
}

/// Whoever shows the configured key, or a bearer token signed with the
/// configured secret, is authorized, and nobody else.
pub proof fn law_credentials_authorize(
    headers: Headers,
    api_key: &str,
    jwt_secret: &str,
    bearer: Option<String>,
    now: i64,
    authorized: bool,
)
    requires
        call_ensures(
            auth::is_authorized_at,
            (&headers, Some(api_key), Some(jwt_secret), now),
            authorized,
        ),
        call_ensures(auth::bearer_token, (&headers,), bearer),
    ensures
        api_key@.len() > 0 && headers::header_text(headers@, "x-api-key"@) == Some(api_key@)
            ==> authorized,
        jwt_secret@.len() > 0 ==> (bearer matches Some(token) ==> auth::claims_at(
            token@,
            jwt_secret@,
            now as int,
        ) is Some ==> authorized),
        authorized ==> {
            ||| api_key@.len() > 0 && headers::header_text(headers@, "x-api-key"@) == Some(api_key@)
            ||| jwt_secret@.len() > 0 && (bearer matches Some(token) && auth::claims_at(
                token@,
                jwt_secret@,
                now as int,
            ) is Some)
        },
{
    assert(text::pieces(Seq::<char>::empty(), '.').len() == 1);
}

/// A verified token is good until it expires, and one without an expiry always:
/// at any time it carries the same claims.
pub proof fn law_tokens_expire(
    token: &str,
    secret: &str,
    now: i64,
    claims: Json,
    later: i64,
    claims_later: Option<Json>,
)
    requires
        call_ensures(auth::decode_hs256_jwt_at, (token, secret, now), Some(claims)),
        call_ensures(auth::decode_hs256_jwt_at, (token, secret, later), claims_later),
    ensures
        claims_later matches Some(found) ==> found@ == claims@,
        json::member(claims@, "exp"@) matches Some(JsonView::Int(expiry)) ==> i64::MIN <= expiry
            <= i64::MAX ==> (claims_later is Some <==> later < expiry) && now < expiry,
        !(json::member(claims@, "exp"@) matches Some(JsonView::Int(_))) ==> claims_later is Some,
{
}

/// An administrator is whoever is authorized, or holds a session that is live.
pub proof fn law_administrators(
    headers: Headers,
    api_key: Option<&str>,
    jwt_secret: Option<&str>,
    live: Vec<String>,
    now: i64,
    authorized: bool,
    session: Option<String>,
    administers: bool,
)
    requires
        call_ensures(auth::is_authorized_at, (&headers, api_key, jwt_secret, now), authorized),
        call_ensures(admin::session_key, (&headers,), session),
        call_ensures(
            admin::is_administrator_at,
            (&headers, api_key, jwt_secret, &live, now),
            administers,
        ),
    ensures
        administers <==> authorized || (session matches Some(key) && text::views(live@).contains(
            key@,
        )),
{
}

/// A session is filed under the hash of its bearer token.
pub proof fn law_sessions_are_filed_by_hash(
    headers: Headers,
    bearer: Option<String>,
    session: Option<String>,
)
    requires
        call_ensures(auth::bearer_token, (&headers,), bearer),
        call_ensures(admin::session_key, (&headers,), session),
    ensures
        session is Some <==> bearer is Some,
        bearer matches Some(token) ==> session->0@ == mfa::hash_of(token@),
{
}

/// What tells these names apart.
proof fn lemma_change_names_differ()
    ensures
        "status"@.len() == 6,
        "ip"@.len() == 2,
        "reason"@.len() == 6,
        "message"@.len() == 7,
        "status"@[0] == 's',
        "reason"@[0] == 'r',
{
    reveal_strlit("status");
    reveal_strlit("ip");
    reveal_strlit("reason");
    reveal_strlit("message");
}

/// An authorized block puts the address on the list, where it can be blocked, and
/// nothing else; it is answered with the address and recorded with its reason.
pub proof fn law_authorized_blocks_take_effect(
    ip: Seq<char>,
    reason: Option<Seq<char>>,
    list: BlocklistView,
    proxies: ProxiesView,
    other: Seq<char>,
)
    ensures
        ({
            let effect = admin::block_effect(true, Some(ip), reason, list, proxies);
            &&& effect.list.blocked.contains(ip) <==> list.blocked.contains(ip)
                || origin::is_blockable(ip, proxies)
            &&& other != ip ==> (effect.list.blocked.contains(other) <==> list.blocked.contains(
                other,
            ))
            &&& effect.list.flagged == list.flagged
            &&& effect.outcome matches Ok(answer) && says(answer, "status"@, "success"@) && says(
                answer,
                "ip"@,
                ip,
            )
            &&& effect.event matches Some(event) && event.event_type == "admin_block_ip"@
                && event.actor == "admin"@ && says(event.payload, "ip"@, ip) && json::member(
                event.payload,
                "reason"@,
            ) == Some(json::text_or_null(reason))
        }),
{
    lemma_change_names_differ();
}

/// An authorized unblock takes the address off the list, and nothing else.
pub proof fn law_authorized_unblocks_take_effect(
    ip: Seq<char>,
    list: BlocklistView,
    other: Seq<char>,
)
    ensures
        ({
            let effect = admin::unblock_effect(true, Some(ip), list);
            &&& !effect.list.blocked.contains(ip)
            &&& other != ip ==> (effect.list.blocked.contains(other) <==> list.blocked.contains(
                other,
            ))
            &&& effect.list.flagged == list.flagged
            &&& effect.outcome matches Ok(answer) && says(answer, "status"@, "success"@) && says(
                answer,
                "ip"@,
                ip,
            )
            &&& effect.event matches Some(event) && event.event_type == "admin_unblock_ip"@
                && event.actor == "admin"@ && says(event.payload, "ip"@, ip)
        }),
{
    lemma_change_names_differ();
}

/// A change without an address, or by whom is not authorized, changes and records
/// nothing, and says so.
pub proof fn law_refused_changes_say_why(
    ip: Option<Seq<char>>,
    reason: Option<Seq<char>>,
    list: BlocklistView,
    proxies: ProxiesView,
)
    ensures
        admin::block_effect(true, None, reason, list, proxies).list == list,
        admin::block_effect(true, None, reason, list, proxies).event is None,
        admin::block_effect(true, None, reason, list, proxies).outcome matches Ok(answer) && says(
            answer,
            "status"@,
            "error"@,
        ) && says(answer, "message"@, "ip required"@),
        admin::unblock_effect(true, None, list).list == list,
        admin::unblock_effect(true, None, list).event is None,
        admin::unblock_effect(true, None, list).outcome matches Ok(answer) && says(
            answer,
            "message"@,
            "ip required"@,
        ),
        admin::block_effect(false, ip, reason, list, proxies).outcome matches Err(refusal)
            && refuses(refusal, 401, "Unauthorized"@),
        admin::unblock_effect(false, ip, list).outcome matches Err(refusal) && refuses(
            refusal,
            401,
            "Unauthorized"@,
        ),
{
    lemma_change_names_differ();
    answers::lemma_refusal(401, "Unauthorized"@);
}

/// What tells these names apart.
proof fn lemma_document_names_differ()
    ensures
        "status"@.len() == 6,
        "plugins"@.len() == 7,
        "dynamic_plugins"@.len() == 15,
        "service"@.len() == 7,
        "port"@.len() == 4,
        "mode"@.len() == 4,
        "blocked_count"@.len() == 13,
        "flagged_count"@.len() == 13,
        "request"@.len() == 7,
        "processor"@.len() == 9,
        "records"@.len() == 7,
        "operation"@.len() == 9,
        "plugins"@[2] == 'u',
        "service"@[2] == 'r',
        "request"@[2] == 'q',
        "records"@[2] == 'c',
        "port"@[0] == 'p',
        "mode"@[0] == 'm',
        "blocked_count"@[0] == 'b',
        "flagged_count"@[0] == 'f',
        "processor"@[0] == 'p',
        "operation"@[0] == 'o',
{
    reveal_strlit("status");
    reveal_strlit("plugins");
    reveal_strlit("dynamic_plugins");
    reveal_strlit("service");
    reveal_strlit("port");
    reveal_strlit("mode");
    reveal_strlit("blocked_count");
    reveal_strlit("flagged_count");
    reveal_strlit("request");
    reveal_strlit("processor");
    reveal_strlit("records");
    reveal_strlit("operation");
}

/// The administration's documents say what they are asked for.
pub proof fn law_admin_documents(
    port: u16,
    stats: BlocklistStats,
    settings: Json,
    metrics: Json,
    blocks: Json,
    plugins: Json,
    report: Json,
)
    requires
        call_ensures(admin::settings_document, (port,), settings),
        call_ensures(admin::metrics_json, (stats,), metrics),
        call_ensures(admin::block_stats, (stats,), blocks),
        call_ensures(admin::plugins, (), plugins),
        call_ensures(admin::gdpr_report, (), report),
    ensures
        says(settings@, "service"@, "admin-ui"@),
        says(settings@, "mode"@, "rust"@),
        json::member(settings@, "port"@) == Some(JsonView::Int(port as int)),
        says(metrics@, "service"@, "admin-ui"@),
        json::member(metrics@, "blocked_count"@) == Some(JsonView::Int(stats.blocked_count as int)),
        json::member(metrics@, "flagged_count"@) == Some(JsonView::Int(stats.flagged_count as int)),
        json::member(blocks@, "blocked_count"@) == Some(JsonView::Int(stats.blocked_count as int)),
        json::member(blocks@, "flagged_count"@) == Some(JsonView::Int(stats.flagged_count as int)),
        json::member(plugins@, "plugins"@) == Some(JsonView::Array(Seq::empty())),
        json::member(plugins@, "dynamic_plugins"@) == Some(JsonView::Bool(false)),
        says(report@, "status"@, "ok"@),
        says(report@, "processor"@, "ai-scraping-defense-rust"@),
        json::member(report@, "records"@) == Some(JsonView::Array(Seq::empty())),
{
    lemma_document_names_differ();
}

/// What an administrator asks for is queued, and recorded under its own name.
pub proof fn law_queued_operations_are_recorded(
    operation: &str,
    queued: (Json, SecurityEvent),
    deletion: (Json, SecurityEvent),
    authorized: bool,
    update: (Result<Json, Reply>, Option<SecurityEvent>),
)
    requires
        call_ensures(admin::operation_queued, (operation,), queued),
        call_ensures(admin::gdpr_deletion, (), deletion),
        call_ensures(admin::update_plugins, (authorized,), update),
    ensures
        says(queued.0@, "status"@, "queued"@),
        says(queued.0@, "operation"@, operation@),
        queued.1@.event_type == "admin_operation_queued"@,
        queued.1@.actor == "admin"@,
        says(queued.1@.payload, "operation"@, operation@),
        says(deletion.0@, "status"@, "queued"@),
        says(deletion.0@, "request"@, "gdpr-deletion"@),
        deletion.1@.event_type == "gdpr_deletion_requested"@,
        deletion.1@.actor == "admin"@,
        says(deletion.1@.payload, "processor"@, "ai-scraping-defense-rust"@),
        update.0 is Ok <==> authorized,
        update.1 is Some <==> authorized,
        update.0 matches Ok(answer) ==> says(answer@, "status"@, "success"@),
        update.1 matches Some(event) ==> event@.event_type == "admin_update_plugins"@ && event@.actor
            == "admin"@,
        update.0 matches Err(refusal) ==> refuses(refusal@, 401, "Unauthorized"@),
{
    lemma_document_names_differ();
    answers::lemma_refusal(401, "Unauthorized"@);
}

/// Stored sign-on state that is missing is answered 503, and a failure 500.
pub proof fn law_storage_failures_are_answered(message: &str, missing: Reply, failed: Reply)
    requires
        call_ensures(admin::storage_required, (), missing),
        call_ensures(admin::internal_error, (message,), failed),
    ensures
        refuses(missing@, 503, "Postgres is required for persisted admin auth state"@),
        refuses(failed@, 500, message@),
{
    answers::lemma_refusal(503, "Postgres is required for persisted admin auth state"@);
    answers::lemma_refusal(500, message@);
}

} // verus!
