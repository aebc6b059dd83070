//! Passkeys of administrators: the configuration of the relying party, the
//! ceremonies step by step, and the sessions they open.
use vstd::prelude::*;
use crate::admin;
use crate::json;
use crate::json::{Json, JsonObject, JsonView};
use crate::mfa;
use crate::outside;
use crate::reply;
use crate::reply::{Reply, ReplyView};
use crate::settings;
use crate::text;
use crate::webauthn;
use crate::webauthn::{PartyView, RelyingParty};

verus! {

/// The settings of the relying party as they were found.
#[derive(Debug)]
pub struct PasskeySettings {
    pub origin: Option<String>,
    pub id: Option<String>,
    pub name: Option<String>,
    pub allow_subdomains: Option<String>,
    pub allow_any_port: Option<String>,
    pub additional_origins: Option<String>,
    pub challenge_ttl_seconds: Option<String>,
    pub session_ttl_seconds: Option<String>,
}

/// The texts of the settings.
pub ghost struct SettingsView {
    pub origin: Option<Seq<char>>,
    pub id: Option<Seq<char>>,
    pub name: Option<Seq<char>>,
    pub allow_subdomains: Option<Seq<char>>,
    pub allow_any_port: Option<Seq<char>>,
    pub additional_origins: Option<Seq<char>>,
    pub challenge_ttl_seconds: Option<Seq<char>>,
    pub session_ttl_seconds: Option<Seq<char>>,
}

impl View for PasskeySettings {
    type V = SettingsView;

    open spec fn view(&self) -> SettingsView {
        SettingsView {
            origin: text::opt_view(self.origin),
            id: text::opt_view(self.id),
            name: text::opt_view(self.name),
            allow_subdomains: text::opt_view(self.allow_subdomains),
            allow_any_port: text::opt_view(self.allow_any_port),
            additional_origins: text::opt_view(self.additional_origins),
            challenge_ttl_seconds: text::opt_view(self.challenge_ttl_seconds),
            session_ttl_seconds: text::opt_view(self.session_ttl_seconds),
        }
    }
}

/// What passkeys are served with.
#[derive(Debug)]
pub struct PasskeyService {
    pub party: RelyingParty,
    pub challenge_ttl_seconds: i32,
    pub session_ttl_seconds: i32,
}

/// What passkeys are served with.
pub ghost struct ServiceView {
    pub party: PartyView,
    pub challenge_ttl_seconds: int,
    pub session_ttl_seconds: int,
}

impl View for PasskeyService {
    type V = ServiceView;

    open spec fn view(&self) -> ServiceView {
        ServiceView {
            party: self.party@,
            challenge_ttl_seconds: self.challenge_ttl_seconds as int,
            session_ttl_seconds: self.session_ttl_seconds as int,
        }
    }
}

/// What is wrong with the settings of the relying party. Each holds the text of
/// the error; an additional origin is named before it.
#[derive(Debug)]
pub enum PasskeyError {
    Origin(String),
    Party(String),
    AdditionalOrigin(String, String),
}

/// What is wrong with the settings of the relying party.
pub ghost enum PasskeyErrorView {
    Origin(Seq<char>),
    Party(Seq<char>),
    AdditionalOrigin(Seq<char>, Seq<char>),
}

impl View for PasskeyError {
    type V = PasskeyErrorView;

    open spec fn view(&self) -> PasskeyErrorView {
        match self {
            PasskeyError::Origin(error) => PasskeyErrorView::Origin(error@),
            PasskeyError::Party(error) => PasskeyErrorView::Party(error@),
            PasskeyError::AdditionalOrigin(origin, error) => PasskeyErrorView::AdditionalOrigin(
                origin@,
                error@,
            ),
        }
    }
}

/// The first of the origins that is no URL, with what is wrong with it.
pub open spec fn first_bad_origin(origins: Seq<Seq<char>>) -> Option<(Seq<char>, Seq<char>)>
    decreases origins.len(),
{
    if origins.len() == 0 {
        None
    } else {
        match first_bad_origin(origins.drop_last()) {
            Some(found) => Some(found),
            None => match outside::url_of(origins.last()) {
                Ok(_) => None,
                Err(error) => Some((origins.last(), error)),
            },
        }
    }
}

/// The identifier of the relying party: the configured one, else the domain of
/// its origin, else this machine.
pub open spec fn party_id(found: SettingsView, domain: Option<Seq<char>>) -> Seq<char> {
    match (found.id, domain) {
        (Some(id), _) => id,
        (None, Some(domain)) => domain,
        (None, None) => "localhost"@,
    }
}

/// What passkeys are served with, or the first thing that is wrong.
pub open spec fn service_of(found: SettingsView) -> Result<ServiceView, PasskeyErrorView> {
    let origin = settings::string_setting(found.origin, "http://localhost:8004"@);
    let extra = text::listed(settings::string_setting(found.additional_origins, Seq::empty()));
    match outside::url_of(origin) {
        Err(error) => Err(PasskeyErrorView::Origin(error)),
        Ok(url) => {
            let id = party_id(found, url.domain);
            match (webauthn::relying_party_fault(id, origin), first_bad_origin(extra)) {
                (Some(error), _) => Err(PasskeyErrorView::Party(error)),
                (None, Some((bad, error))) => Err(PasskeyErrorView::AdditionalOrigin(bad, error)),
                (None, None) => Ok(
                    ServiceView {
                        party: PartyView {
                            id,
                            name: settings::string_setting(
                                found.name,
                                "AI Scraping Defense Admin"@,
                            ),
                            origin,
                            allow_subdomains: settings::flag_setting(
                                found.allow_subdomains,
                                false,
                            ),
                            allow_any_port: settings::flag_setting(found.allow_any_port, false),
                            additional_origins: extra,
                        },
                        challenge_ttl_seconds: settings::clamped(
                            settings::signed_setting(found.challenge_ttl_seconds, 300),
                            60,
                            900,
                        ),
                        session_ttl_seconds: settings::clamped(
                            settings::signed_setting(found.session_ttl_seconds, 3600),
                            300,
                            86_400,
                        ),
                    },
                ),
            }
        },
    }
}

/// The first of the origins that is no URL, with what is wrong with it.
fn check_origins(origins: &Vec<String>) -> (r: Option<(String, String)>)
    ensures
        match r {
            Some((origin, error)) => first_bad_origin(text::views(origins@)) == Some(
                (origin@, error@),
            ),
            None => first_bad_origin(text::views(origins@)) is None,
        },
{
    let ghost views = text::views(origins@);
    let mut i: usize = 0;
    while i < origins.len()
        invariant
            i <= origins@.len(),
            views == text::views(origins@),
            first_bad_origin(views.take(i as int)) is None,
        decreases origins@.len() - i,
    {
        let ghost now = views.take(i + 1);
        assert(now.drop_last() =~= views.take(i as int));
        assert(now.last() == origins@[i as int]@);
        if let Err(error) = outside::parse_url(origins[i].as_str()) {
            proof {
                lemma_bad_origin_stays(views, i + 1);
            }
            return Some((origins[i].clone(), error));
        }
        i += 1;
    }
    assert(views.take(i as int) =~= views);
    None
}

/// What is wrong with a prefix is wrong with the whole.
proof fn lemma_bad_origin_stays(origins: Seq<Seq<char>>, n: int)
    requires
        0 <= n <= origins.len(),
        first_bad_origin(origins.take(n)) is Some,
    ensures
        first_bad_origin(origins) == first_bad_origin(origins.take(n)),
    decreases origins.len() - n,
{
    if n == origins.len() {
        assert(origins.take(n) =~= origins);
    } else {
        assert(origins.take(n + 1).drop_last() =~= origins.take(n));
        lemma_bad_origin_stays(origins, n + 1);
    }
}

impl PasskeyService {
    /// What passkeys are served with.
    pub fn from_settings(found: &PasskeySettings) -> (r: Result<PasskeyService, PasskeyError>)
        ensures
            match r {
                Ok(service) => service_of(found@) == Ok::<ServiceView, PasskeyErrorView>(service@)
                    && webauthn::is_valid_party(service@.party),
                Err(error) => service_of(found@) == Err::<ServiceView, PasskeyErrorView>(error@),
            },
    {
        proof {
            reveal_strlit("");
            assert(""@ =~= Seq::<char>::empty());
        }
        let origin = settings::env_string(text::borrowed(&found.origin), "http://localhost:8004");
        let url = match outside::parse_url(origin.as_str()) {
            Ok(url) => url,
            Err(error) => {
                return Err(PasskeyError::Origin(error));
            },
        };
        let local = match url.domain {
            Some(domain) => domain,
            None => "localhost".to_string(),
        };
        let id = settings::env_string(text::borrowed(&found.id), local.as_str());
        if let Some(error) = webauthn::check_relying_party(id.as_str(), origin.as_str()) {
            return Err(PasskeyError::Party(error));
        }
        let additional_origins = settings::env_list(text::borrowed(&found.additional_origins));
        if let Some((bad, error)) = check_origins(&additional_origins) {
            return Err(PasskeyError::AdditionalOrigin(bad, error));
        }
        Ok(
            PasskeyService {
                party: RelyingParty {
                    id,
                    name: settings::env_string(
                        text::borrowed(&found.name),
                        "AI Scraping Defense Admin",
                    ),
                    origin,
                    allow_subdomains: settings::env_bool(
                        text::borrowed(&found.allow_subdomains),
                        false,
                    ),
                    allow_any_port: settings::env_bool(
                        text::borrowed(&found.allow_any_port),
                        false,
                    ),
                    additional_origins,
                },
                challenge_ttl_seconds: settings::env_i32(
                    text::borrowed(&found.challenge_ttl_seconds),
                    300,
                    60,
                    900,
                ),
                session_ttl_seconds: settings::env_i32(
                    text::borrowed(&found.session_ttl_seconds),
                    3600,
                    300,
                    86_400,
                ),
            },
        )
    }
}

/// The refusal of a stored passkey that is none.
pub open spec fn bad_passkey() -> ReplyView {
    reply::refusal(reply::INTERNAL_ERROR, "stored WebAuthn credential is invalid"@)
}

/// The identifiers of stored passkeys.
pub open spec fn ids_of(passkeys: Seq<Seq<char>>) -> Seq<Seq<char>> {
    passkeys.map_values(|passkey: Seq<char>| webauthn::passkey_id_of(passkey)->0)
}

/// The identifiers of stored passkeys, or the refusal of one that is none.
pub fn read_passkeys(passkeys: &Vec<String>) -> (r: Result<Vec<String>, Reply>)
    ensures
        match r {
            Ok(ids) => webauthn::all_passkeys(text::views(passkeys@)) && text::views(ids@) == ids_of(
                text::views(passkeys@),
            ),
            Err(refused) => !webauthn::all_passkeys(text::views(passkeys@)) && refused@ == bad_passkey(),
        },
{
    let ghost views = text::views(passkeys@);
    assert(views.len() == passkeys@.len());
    let mut ids: Vec<String> = Vec::new();
    let mut i: usize = 0;
    while i < passkeys.len()
        invariant
            i <= passkeys@.len(),
            views == text::views(passkeys@),
            views.len() == passkeys@.len(),
            ids@.len() == i,
            forall|j: int|
                0 <= j < i ==> webauthn::passkey_id_of(#[trigger] views[j]) == Some(ids@[j]@),
        decreases passkeys@.len() - i,
    {
        assert(views[i as int] == passkeys@[i as int]@);
        match webauthn::passkey_id(passkeys[i].as_str()) {
            Some(id) => ids.push(id),
            None => {
                return Err(
                    reply::refuse(reply::INTERNAL_ERROR, "stored WebAuthn credential is invalid"),
                );
            },
        }
        i += 1;
    }
    assert(text::views(ids@) =~= ids_of(views));
    Ok(ids)
}

/// A ceremony that has begun: what the browser is asked, and the state to store.
#[derive(Debug)]
pub struct Started {
    pub options: Json,
    pub state: String,
}

/// What came of beginning a ceremony, given what the ceremony library handed out.
pub open spec fn started_outcome(
    started: Option<(Seq<char>, Seq<char>)>,
    message: Seq<char>,
) -> Result<(JsonView, Seq<char>), ReplyView> {
    match started {
        Some((options, state)) => match outside::json_text(vstd::utf8::encode_utf8(options)) {
            Some(document) => Ok((document, state)),
            None => Err(reply::refusal(reply::BAD_REQUEST, message)),
        },
        None => Err(reply::refusal(reply::BAD_REQUEST, message)),
    }
}

/// The meaning of a ceremony that has begun.
pub open spec fn started_view(r: Result<Started, Reply>) -> Result<
    (JsonView, Seq<char>),
    ReplyView,
> {
    match r {
        Ok(started) => Ok((started.options@, started.state@)),
        Err(refused) => Err(refused@),
    }
}

/// What came of beginning a ceremony.
pub fn take_started(started: Option<(String, String)>, message: &str) -> (r: Result<
    Started,
    Reply,
>)
    ensures
        started_view(r) == started_outcome(webauthn::begun(started), message@),
{
    match started {
        Some((options, state)) => match outside::parse_json(options.as_str().as_bytes()) {
            Some(document) => Ok(Started { options: document, state }),
            None => Err(reply::refuse(reply::BAD_REQUEST, message)),
        },
        None => Err(reply::refuse(reply::BAD_REQUEST, message)),
    }
}

/// Begins a registration. The passkeys that the user has already are excluded.
/// With a valid relying party, a name and an identifier it begins. The state keeps
/// the challenge that the options carry.
pub fn begin_registration(
    service: &PasskeyService,
    user_id: &str,
    user: &str,
    passkeys: &Vec<String>,
) -> (r: Result<Started, Reply>)
    ensures
        ({
            let known = text::views(passkeys@);
            let party = service@.party;
            match started_view(r) {
                Ok((options, state)) => {
                    &&& webauthn::all_passkeys(known)
                    &&& webauthn::is_valid_party(party) && user@.len() > 0
                    &&& webauthn::identifier_bytes(user_id@) is Some
                    &&& webauthn::asks_registration(options, party, user_id@, user@, known)
                    &&& webauthn::is_registration_state(state)
                    &&& webauthn::keeps_challenge(options, state, "rs"@)
                },
                Err(refused) => if webauthn::all_passkeys(known) {
                    &&& !webauthn::is_valid_party(party) || user@.len() == 0
                        || webauthn::identifier_bytes(user_id@) is None
                    &&& refused == reply::refusal(
                        reply::BAD_REQUEST,
                        "could not begin WebAuthn registration"@,
                    )
                } else {
                    refused == bad_passkey()
                },
            }
        }),
{
    if let Err(refused) = read_passkeys(passkeys) {
        return Err(refused);
    }
    assert(text::views(passkeys@).len() == passkeys@.len());
    let excluded = if passkeys.len() == 0 {
        assert(text::views(passkeys@) =~= Seq::empty());
        None
    } else {
        Some(passkeys)
    };
    let started = webauthn::start_registration(&service.party, user_id, user, excluded);
    take_started(started, "could not begin WebAuthn registration")
}

/// Begins an authentication, for a user who has a passkey. The state keeps the
/// challenge that the options carry.
pub fn begin_authentication(service: &PasskeyService, passkeys: &Vec<String>) -> (r: Result<
    Started,
    Reply,
>)
    ensures
        ({
            let known = text::views(passkeys@);
            let party = service@.party;
            match started_view(r) {
                Ok((options, state)) => {
                    &&& webauthn::all_passkeys(known) && known.len() > 0
                    &&& webauthn::is_valid_party(party)
                    &&& webauthn::asks_authentication(options, party, known)
                    &&& webauthn::keeps_challenge(options, state, "ast"@)
                },
                Err(refused) => refused == (if !webauthn::all_passkeys(known) {
                    bad_passkey()
                } else if known.len() == 0 {
                    reply::refusal(reply::NOT_FOUND, "no passkeys are registered for this user"@)
                } else {
                    reply::refusal(
                        reply::BAD_REQUEST,
                        "could not begin WebAuthn authentication"@,
                    )
                }),
            }
        }),
        r is Err ==> !webauthn::all_passkeys(text::views(passkeys@)) || passkeys@.len() == 0
            || !webauthn::is_valid_party(service@.party),
{
    assert(text::views(passkeys@).len() == passkeys@.len());
    if let Err(refused) = read_passkeys(passkeys) {
        return Err(refused);
    }
    if passkeys.len() == 0 {
        return Err(
            reply::refuse(reply::NOT_FOUND, "no passkeys are registered for this user"),
        );
    }
    let started = webauthn::start_authentication(&service.party, passkeys);
    take_started(started, "could not begin WebAuthn authentication")
}

/// Checks the stored identifier of a user.
pub fn check_user_id(user_id: &str) -> (r: Result<(), Reply>)
    ensures
        match r {
            Ok(_) => webauthn::identifier_bytes(user_id@) is Some,
            Err(refused) => webauthn::identifier_bytes(user_id@) is None && refused@
                == reply::refusal(reply::INTERNAL_ERROR, "stored WebAuthn user ID is invalid"@),
        },
{
    match webauthn::parse_identifier(user_id) {
        Some(_) => Ok(()),
        None => Err(reply::refuse(reply::INTERNAL_ERROR, "stored WebAuthn user ID is invalid")),
    }
}

/// The refusal of a stored state that cannot be read.
pub open spec fn bad_state() -> ReplyView {
    reply::refusal(reply::INTERNAL_ERROR, "stored WebAuthn ceremony state is invalid"@)
}

/// Checks the stored state of a registration.
pub fn check_registration_state(state: &str) -> (r: Result<(), Reply>)
    ensures
        match r {
            Ok(_) => webauthn::is_registration_state(state@),
            Err(refused) => !webauthn::is_registration_state(state@) && refused@ == bad_state(),
        },
{
    if webauthn::reads_registration_state(state) {
        Ok(())
    } else {
        Err(reply::refuse(reply::INTERNAL_ERROR, "stored WebAuthn ceremony state is invalid"))
    }
}

/// Checks the stored state of an authentication.
pub fn check_authentication_state(state: &str) -> (r: Result<(), Reply>)
    ensures
        match r {
            Ok(_) => webauthn::is_authentication_state(state@),
            Err(refused) => !webauthn::is_authentication_state(state@) && refused@ == bad_state(),
        },
{
    if webauthn::reads_authentication_state(state) {
        Ok(())
    } else {
        Err(reply::refuse(reply::INTERNAL_ERROR, "stored WebAuthn ceremony state is invalid"))
    }
}

/// A passkey to store, with its identifier.
pub open spec fn stored_outcome(passkey: Seq<char>) -> Result<
    (Seq<char>, Seq<char>),
    ReplyView,
> {
    match webauthn::passkey_id_of(passkey) {
        Some(id) => Ok((id, passkey)),
        None => Err(
            reply::refusal(reply::INTERNAL_ERROR, "could not encode WebAuthn credential ID"@),
        ),
    }
}

/// The meaning of a passkey to store.
pub open spec fn stored_view(r: Result<(String, String), Reply>) -> Result<
    (Seq<char>, Seq<char>),
    ReplyView,
> {
    match r {
        Ok((id, passkey)) => Ok((id@, passkey@)),
        Err(refused) => Err(refused@),
    }
}

/// A passkey to store, with its identifier.
fn with_identifier(passkey: String) -> (r: Result<(String, String), Reply>)
    ensures
        stored_view(r) == stored_outcome(passkey@),
{
    match webauthn::passkey_id(passkey.as_str()) {
        Some(id) => Ok((id, passkey)),
        None => Err(
            reply::refuse(reply::INTERNAL_ERROR, "could not encode WebAuthn credential ID"),
        ),
    }
}

/// What completing a registration comes to, given what the answer proves.
pub open spec fn registration_outcome(passkey: Option<Seq<char>>) -> Result<
    (Seq<char>, Seq<char>),
    ReplyView,
> {
    match passkey {
        Some(proved) => stored_outcome(proved),
        None => Err(
            reply::refusal(
                reply::BAD_REQUEST,
                "WebAuthn registration response was not valid"@,
            ),
        ),
    }
}

/// Completes a registration: the passkey to store, with its identifier.
pub fn complete_registration(service: &PasskeyService, credential: &str, state: &str) -> (r: Result<
    (String, String),
    Reply,
>)
    ensures
        stored_view(r) == registration_outcome(
            webauthn::registered_passkey(service@.party, credential@, state@),
        ),
{
    match webauthn::finish_registration(&service.party, credential, state) {
        Some(passkey) => with_identifier(passkey),
        None => Err(
            reply::refuse(reply::BAD_REQUEST, "WebAuthn registration response was not valid"),
        ),
    }
}

/// The first stored passkey that was used, brought up to date.
pub open spec fn used_passkey(passkeys: Seq<Seq<char>>, result: Seq<char>) -> Option<Seq<char>>
    decreases passkeys.len(),
{
    if passkeys.len() == 0 {
        None
    } else {
        match used_passkey(passkeys.drop_last(), result) {
            Some(found) => Some(found),
            None => webauthn::updated_passkey(passkeys.last(), result),
        }
    }
}

/// The identifier is that of one of the stored passkeys.
pub open spec fn is_known(id: Seq<char>, passkeys: Seq<Seq<char>>) -> bool {
    exists|i: int| 0 <= i < passkeys.len() && webauthn::passkey_id_of(#[trigger] passkeys[i]) == Some(id)
}

/// The first stored passkey that was used, brought up to date. It keeps its
/// identifier.
pub fn match_passkey(passkeys: &Vec<String>, result: &str) -> (r: Option<String>)
    ensures
        text::opt_view(r) == used_passkey(text::views(passkeys@), result@),
        r is Some ==> (webauthn::passkey_id_of(r->0@) matches Some(id) ==> is_known(
            id,
            text::views(passkeys@),
        )),
{
    let ghost views = text::views(passkeys@);
    assert(views.len() == passkeys@.len());
    let mut found: Option<String> = None;
    let mut i: usize = 0;
    while i < passkeys.len()
        invariant
            i <= passkeys@.len(),
            views == text::views(passkeys@),
            views.len() == passkeys@.len(),
            text::opt_view(found) == used_passkey(views.take(i as int), result@),
            found is Some ==> (webauthn::passkey_id_of(found->0@) matches Some(id) ==> is_known(
                id,
                views,
            )),
        decreases passkeys@.len() - i,
    {
        let ghost now = views.take(i + 1);
        assert(now.drop_last() =~= views.take(i as int));
        assert(now.last() == passkeys@[i as int]@);
        if found.is_none() {
            found = webauthn::update_passkey(passkeys[i].as_str(), result);
            assert(views[i as int] == passkeys@[i as int]@);
        }
        i += 1;
    }
    assert(views.take(i as int) =~= views);
    found
}

/// What completing an authentication comes to, given what the answer proves.
pub open spec fn authentication_outcome(
    result: Option<Seq<char>>,
    passkeys: Seq<Seq<char>>,
) -> Result<(Seq<char>, Seq<char>), ReplyView> {
    match result {
        Some(proved) => match used_passkey(passkeys, proved) {
            Some(passkey) => stored_outcome(passkey),
            None => Err(
                reply::refusal(
                    reply::BAD_REQUEST,
                    "authentication used an unknown credential"@,
                ),
            ),
        },
        None => Err(
            reply::refusal(
                reply::BAD_REQUEST,
                "WebAuthn authentication response was not valid"@,
            ),
        ),
    }
}

/// What completing an authentication comes to, given what the answer proves.
pub fn accept_authentication(result: Option<&str>, passkeys: &Vec<String>) -> (r: Result<
    (String, String),
    Reply,
>)
    ensures
        stored_view(r) == authentication_outcome(
            text::opt_str_view(result),
            text::views(passkeys@),
        ),
        stored_view(r) matches Ok((id, _)) ==> is_known(id, text::views(passkeys@)),
{
    match result {
        Some(proved) => match match_passkey(passkeys, proved) {
            Some(passkey) => with_identifier(passkey),
            None => Err(
                reply::refuse(reply::BAD_REQUEST, "authentication used an unknown credential"),
            ),
        },
        None => Err(
            reply::refuse(reply::BAD_REQUEST, "WebAuthn authentication response was not valid"),
        ),
    }
}

/// Completes an authentication: the passkey to store anew, with its identifier,
/// which is that of a passkey of the user.
pub fn complete_authentication(
    service: &PasskeyService,
    credential: &str,
    state: &str,
    passkeys: &Vec<String>,
) -> (r: Result<(String, String), Reply>)
    ensures
        stored_view(r) == authentication_outcome(
            webauthn::proved_authentication(service@.party, credential@, state@),
            text::views(passkeys@),
        ),
        stored_view(r) matches Ok((id, _)) ==> is_known(id, text::views(passkeys@)),
{
    let result = webauthn::finish_authentication(&service.party, credential, state);
    accept_authentication(text::borrowed(&result), passkeys)
}

/// The ceremonies.
#[derive(Debug, Clone, Copy, PartialEq, Eq, Structural)]
pub enum Ceremony {
    BeginRegistration,
    CompleteRegistration,
    BeginAuthentication,
    CompleteAuthentication,
}

/// The ceremony that is asked for at a path. The older paths are further names of
/// the beginnings.
pub open spec fn ceremony_at(path: Seq<char>) -> Option<Ceremony> {
    if path == "/webauthn/register/begin"@ || path == "/passkey/register"@ {
        Some(Ceremony::BeginRegistration)
    } else if path == "/webauthn/register/complete"@ {
        Some(Ceremony::CompleteRegistration)
    } else if path == "/webauthn/login/begin"@ || path == "/passkey/login"@ {
        Some(Ceremony::BeginAuthentication)
    } else if path == "/webauthn/login/complete"@ {
        Some(Ceremony::CompleteAuthentication)
    } else {
        None
    }
}

/// The ceremony that is asked for at a path.
pub fn ceremony_of(path: &str) -> (r: Option<Ceremony>)
    ensures
        r == ceremony_at(path@),
{
    if text::text_eq(path, "/webauthn/register/begin") || text::text_eq(path, "/passkey/register") {
        Some(Ceremony::BeginRegistration)
    } else if text::text_eq(path, "/webauthn/register/complete") {
        Some(Ceremony::CompleteRegistration)
    } else if text::text_eq(path, "/webauthn/login/begin") || text::text_eq(path, "/passkey/login") {
        Some(Ceremony::BeginAuthentication)
    } else if text::text_eq(path, "/webauthn/login/complete") {
        Some(Ceremony::CompleteAuthentication)
    } else {
        None
    }
}

/// Whether only an administrator may ask for a ceremony: for a registration, not
/// to sign on.
pub fn needs_administrator(ceremony: Ceremony) -> (r: bool)
    ensures
        r == (ceremony == Ceremony::BeginRegistration || ceremony
            == Ceremony::CompleteRegistration),
{
    match ceremony {
        Ceremony::BeginRegistration | Ceremony::CompleteRegistration => true,
        Ceremony::BeginAuthentication | Ceremony::CompleteAuthentication => false,
    }
}

/// The steps that ceremonies are made of.
#[derive(Debug, Clone, Copy, PartialEq, Eq, Structural)]
pub enum Step {
    /// There is a store at all.
    Storage,
    /// A new user gets an identifier.
    SaveUser,
    /// The identifier of the user is read.
    LoadUser,
    /// That identifier is one.
    ReadUser,
    /// The passkeys of the user are read.
    LoadPasskeys,
    /// The challenge is drawn.
    Start,
    /// The state of the ceremony is stored.
    SaveState,
    /// The stored state is taken out, so that it serves once.
    TakeState,
    /// There was such a state, and it had not expired.
    FindState,
    /// The stored state can be read.
    ReadState,
    /// What the browser answered is verified.
    Finish,
    /// The new passkey is stored.
    SavePasskey,
    /// The new passkey was not there before.
    CountPasskey,
    /// The passkey that was used is stored anew.
    UpdatePasskey,
    /// That passkey was still there.
    CountUpdate,
    /// A session is opened.
    CreateSession,
}

/// The steps of a ceremony in order.
pub open spec fn plan(ceremony: Ceremony) -> Seq<Step> {
    match ceremony {
        Ceremony::BeginRegistration => seq![
            Step::Storage,
            Step::SaveUser,
            Step::LoadUser,
            Step::ReadUser,
            Step::LoadPasskeys,
            Step::Start,
            Step::SaveState,
        ],
        Ceremony::CompleteRegistration => seq![
            Step::Storage,
            Step::TakeState,
            Step::FindState,
            Step::ReadState,
            Step::Finish,
            Step::SavePasskey,
            Step::CountPasskey,
        ],
        Ceremony::BeginAuthentication => seq![
            Step::Storage,
            Step::LoadPasskeys,
            Step::Start,
            Step::SaveState,
        ],
        Ceremony::CompleteAuthentication => seq![
            Step::Storage,
            Step::TakeState,
            Step::FindState,
            Step::ReadState,
            Step::LoadPasskeys,
            Step::Finish,
            Step::UpdatePasskey,
            Step::CountUpdate,
            Step::CreateSession,
        ],
    }
}

/// The steps of a ceremony in order.
pub fn steps_of(ceremony: Ceremony) -> (r: Vec<Step>)
    ensures
        r@ == plan(ceremony),
{
    let mut steps: Vec<Step> = Vec::new();
    steps.push(Step::Storage);
    match ceremony {
        Ceremony::BeginRegistration => {
            steps.push(Step::SaveUser);
            steps.push(Step::LoadUser);
            steps.push(Step::ReadUser);
            steps.push(Step::LoadPasskeys);
            steps.push(Step::Start);
            steps.push(Step::SaveState);
        },
        Ceremony::CompleteRegistration => {
            steps.push(Step::TakeState);
            steps.push(Step::FindState);
            steps.push(Step::ReadState);
            steps.push(Step::Finish);
            steps.push(Step::SavePasskey);
            steps.push(Step::CountPasskey);
        },
        Ceremony::BeginAuthentication => {
            steps.push(Step::LoadPasskeys);
            steps.push(Step::Start);
            steps.push(Step::SaveState);
        },
        Ceremony::CompleteAuthentication => {
            steps.push(Step::TakeState);
            steps.push(Step::FindState);
            steps.push(Step::ReadState);
            steps.push(Step::LoadPasskeys);
            steps.push(Step::Finish);
            steps.push(Step::UpdatePasskey);
            steps.push(Step::CountUpdate);
            steps.push(Step::CreateSession);
        },
    }
    assert(steps@ =~= plan(ceremony));
    steps
}

/// How far a ceremony has come.
#[derive(Debug, Clone, Copy, PartialEq, Eq, Structural)]
pub enum Progress {
    /// This step is next.
    Do(Step),
    /// Every step succeeded.
    Done,
    /// This step failed, and no other is taken.
    Failed(Step),
}

/// How far a ceremony has come when each outcome says whether a step succeeded.
pub open spec fn progress(ceremony: Ceremony, outcomes: Seq<bool>) -> Progress
    decreases outcomes.len(),
{
    if outcomes.len() == 0 {
        Progress::Do(plan(ceremony)[0])
    } else {
        match progress(ceremony, outcomes.drop_last()) {
            Progress::Do(step) => if !outcomes.last() {
                Progress::Failed(step)
            } else if outcomes.len() >= plan(ceremony).len() {
                Progress::Done
            } else {
                Progress::Do(plan(ceremony)[outcomes.len() as int])
            },
            other => other,
        }
    }
}

/// How far a ceremony has come once the step after `done` others came out.
pub fn advance(ceremony: Ceremony, done: usize, succeeded: bool) -> (r: Progress)
    requires
        done < plan(ceremony).len(),
    ensures
        r == (if !succeeded {
            Progress::Failed(plan(ceremony)[done as int])
        } else if done + 1 == plan(ceremony).len() {
            Progress::Done
        } else {
            Progress::Do(plan(ceremony)[done + 1])
        }),
{
    let steps = steps_of(ceremony);
    if !succeeded {
        Progress::Failed(steps[done])
    } else if done + 1 == steps.len() {
        Progress::Done
    } else {
        Progress::Do(steps[done + 1])
    }
}

/// The status and the message with which a failed step of the store is refused.
pub open spec fn failure_of(ceremony: Ceremony, step: Step) -> (u16, Seq<char>) {
    match step {
        Step::Storage => (
            reply::SERVICE_UNAVAILABLE,
            "Postgres is required for persisted admin auth state"@,
        ),
        Step::SaveUser => (reply::INTERNAL_ERROR, "could not persist WebAuthn user"@),
        Step::LoadUser => (reply::INTERNAL_ERROR, "could not load WebAuthn user"@),
        Step::ReadUser => (reply::INTERNAL_ERROR, "stored WebAuthn user ID is invalid"@),
        Step::LoadPasskeys => (reply::INTERNAL_ERROR, "could not load WebAuthn credentials"@),
        Step::Start => (
            reply::BAD_REQUEST,
            if ceremony == Ceremony::BeginRegistration {
                "could not begin WebAuthn registration"@
            } else {
                "could not begin WebAuthn authentication"@
            },
        ),
        Step::SaveState => (reply::INTERNAL_ERROR, "could not persist WebAuthn ceremony state"@),
        Step::TakeState => (reply::INTERNAL_ERROR, "could not consume WebAuthn ceremony state"@),
        Step::FindState => (
            reply::BAD_REQUEST,
            "WebAuthn ceremony is missing, expired, or already used"@,
        ),
        Step::ReadState => (reply::INTERNAL_ERROR, "stored WebAuthn ceremony state is invalid"@),
        Step::Finish => (
            reply::BAD_REQUEST,
            if ceremony == Ceremony::CompleteRegistration {
                "WebAuthn registration response was not valid"@
            } else {
                "WebAuthn authentication response was not valid"@
            },
        ),
        Step::SavePasskey => (reply::INTERNAL_ERROR, "could not persist WebAuthn credential"@),
        Step::CountPasskey => (reply::CONFLICT, "credential is already registered"@),
        Step::UpdatePasskey => (reply::INTERNAL_ERROR, "could not update WebAuthn credential"@),
        Step::CountUpdate => (
            reply::INTERNAL_ERROR,
            "WebAuthn credential disappeared during authentication"@,
        ),
        Step::CreateSession => (reply::INTERNAL_ERROR, "could not create admin session"@),
    }
}

/// The refusal of a ceremony whose step failed.
pub fn refuse_step(ceremony: Ceremony, step: Step) -> (r: Reply)
    ensures
        r@ == reply::refusal(failure_of(ceremony, step).0, failure_of(ceremony, step).1),
{
    match step {
        Step::Storage => admin::storage_required(),
        Step::SaveUser => reply::refuse(reply::INTERNAL_ERROR, "could not persist WebAuthn user"),
        Step::LoadUser => reply::refuse(reply::INTERNAL_ERROR, "could not load WebAuthn user"),
        Step::ReadUser => reply::refuse(
            reply::INTERNAL_ERROR,
            "stored WebAuthn user ID is invalid",
        ),
        Step::LoadPasskeys => reply::refuse(
            reply::INTERNAL_ERROR,
            "could not load WebAuthn credentials",
        ),
        Step::Start => if ceremony == Ceremony::BeginRegistration {
            reply::refuse(reply::BAD_REQUEST, "could not begin WebAuthn registration")
        } else {
            reply::refuse(reply::BAD_REQUEST, "could not begin WebAuthn authentication")
        },
        Step::SaveState => reply::refuse(
            reply::INTERNAL_ERROR,
            "could not persist WebAuthn ceremony state",
        ),
        Step::TakeState => reply::refuse(
            reply::INTERNAL_ERROR,
            "could not consume WebAuthn ceremony state",
        ),
        Step::FindState => reply::refuse(
            reply::BAD_REQUEST,
            "WebAuthn ceremony is missing, expired, or already used",
        ),
        Step::ReadState => reply::refuse(
            reply::INTERNAL_ERROR,
            "stored WebAuthn ceremony state is invalid",
        ),
        Step::Finish => if ceremony == Ceremony::CompleteRegistration {
            reply::refuse(reply::BAD_REQUEST, "WebAuthn registration response was not valid")
        } else {
            reply::refuse(reply::BAD_REQUEST, "WebAuthn authentication response was not valid")
        },
        Step::SavePasskey => reply::refuse(
            reply::INTERNAL_ERROR,
            "could not persist WebAuthn credential",
        ),
        Step::CountPasskey => reply::refuse(reply::CONFLICT, "credential is already registered"),
        Step::UpdatePasskey => reply::refuse(
            reply::INTERNAL_ERROR,
            "could not update WebAuthn credential",
        ),
        Step::CountUpdate => reply::refuse(
            reply::INTERNAL_ERROR,
            "WebAuthn credential disappeared during authentication",
        ),
        Step::CreateSession => reply::refuse(
            reply::INTERNAL_ERROR,
            "could not create admin session",
        ),
    }
}

/// Under which purpose the state of a ceremony is stored.
pub open spec fn purpose_of(ceremony: Ceremony) -> Seq<char> {
    match ceremony {
        Ceremony::BeginRegistration | Ceremony::CompleteRegistration => "webauthn-registration"@,
        Ceremony::BeginAuthentication | Ceremony::CompleteAuthentication => {
            "webauthn-authentication"@
        },
    }
}

/// Under which purpose the state of a ceremony is stored.
pub fn purpose(ceremony: Ceremony) -> (r: &'static str)
    ensures
        r@ == purpose_of(ceremony),
{
    match ceremony {
        Ceremony::BeginRegistration | Ceremony::CompleteRegistration => "webauthn-registration",
        Ceremony::BeginAuthentication | Ceremony::CompleteAuthentication => {
            "webauthn-authentication"
        },
    }
}

/// The answer to a ceremony that has begun.
pub open spec fn begun_document(user: Seq<char>, options: JsonView) -> JsonView {
    JsonView::Object(
        map![
            "status"@ => JsonView::Text("success"@),
            "user"@ => JsonView::Text(user),
            "options"@ => options,
        ],
    )
}

/// The answer to a ceremony that has begun.
pub fn begun_answer(user: &str, options: Json) -> (r: Json)
    ensures
        r@ == begun_document(user@, options@),
{
    let mut body = JsonObject::new();
    body.put("status", json::text_value("success"));
    body.put("user", json::text_value(user));
    body.put("options", options);
    Json::Object(body)
}

/// The answer to a registration that was completed.
pub fn registered_answer(user: &str) -> (r: Json)
    ensures
        r@ == JsonView::Object(
            map![
                "status"@ => JsonView::Text("success"@),
                "user"@ => JsonView::Text(user@),
                "registered"@ => JsonView::Bool(true),
            ],
        ),
{
    let mut body = JsonObject::new();
    body.put("status", json::text_value("success"));
    body.put("user", json::text_value(user));
    body.put("registered", Json::Bool(true));
    Json::Object(body)
}

/// How many random bytes a session token is made of.
pub const SESSION_TOKEN_BYTES: usize = 32;

/// A new session: the token for the user, and the hash under which it is stored.
pub fn new_session() -> (r: (String, String))
    ensures
        mfa::is_token(r.0@, SESSION_TOKEN_BYTES as nat),
        r.1@ == mfa::hash_of(r.0@),
{
    let token = mfa::random_token(SESSION_TOKEN_BYTES);
    let hash = mfa::hash_secret(token.as_str());
    (token, hash)
}

/// The answer to an authentication that was completed.
pub fn session_answer(user: &str, token: &str, session_ttl_seconds: i32) -> (r: Json)
    ensures
        r@ == JsonView::Object(
            map![
                "status"@ => JsonView::Text("success"@),
                "user"@ => JsonView::Text(user@),
                "token"@ => JsonView::Text(token@),
                "token_type"@ => JsonView::Text("Bearer"@),
                "expires_in"@ => JsonView::Int(session_ttl_seconds as int),
            ],
        ),
{
    let mut body = JsonObject::new();
    body.put("status", json::text_value("success"));
    body.put("user", json::text_value(user));
    body.put("token", json::text_value(token));
    body.put("token_type", json::text_value("Bearer"));
    body.put("expires_in", Json::Signed(session_ttl_seconds as i64));
    Json::Object(body)
}

/// A ceremony is done only when each of its steps succeeded, and a step that
/// fails ends it.
pub proof fn law_ceremonies_take_every_step(ceremony: Ceremony, outcomes: Seq<bool>)
    ensures
        match progress(ceremony, outcomes) {
            Progress::Done => outcomes.len() >= plan(ceremony).len() && forall|i: int|
                0 <= i < plan(ceremony).len() ==> #[trigger] outcomes[i],
            Progress::Do(step) => {
                &&& outcomes.len() < plan(ceremony).len()
                &&& step == plan(ceremony)[outcomes.len() as int]
                &&& forall|i: int| 0 <= i < outcomes.len() ==> #[trigger] outcomes[i]
            },
            Progress::Failed(step) => exists|i: int|
                0 <= i < outcomes.len() && i < plan(ceremony).len() && !outcomes[i] && step
                    == #[trigger] plan(ceremony)[i],
        },
    decreases outcomes.len(),
{
    if outcomes.len() > 0 {
        let before = outcomes.drop_last();
        law_ceremonies_take_every_step(ceremony, before);
        match progress(ceremony, before) {
            Progress::Done => {
                assert forall|i: int| 0 <= i < plan(ceremony).len() implies #[trigger] outcomes[i] by {
                    assert(before[i]);
                }
            },
            Progress::Do(step) => {
                assert forall|i: int| 0 <= i < before.len() implies #[trigger] outcomes[i] by {
                    assert(before[i]);
                }
                if !outcomes.last() {
                    assert(plan(ceremony)[before.len() as int] == step);
                }
            },
            Progress::Failed(step) => {
                let i = choose|i: int|
                    0 <= i < before.len() && i < plan(ceremony).len() && !before[i] && step
                        == #[trigger] plan(ceremony)[i];
                assert(!outcomes[i]);
                assert(plan(ceremony)[i] == step);
            },
        }
    }
}

/// A session is opened last of all: the stored challenge was found and taken
/// out, the answer was verified against it, and the passkey stored anew.
pub proof fn law_sessions_open_last(outcomes: Seq<bool>)
    requires
        progress(Ceremony::CompleteAuthentication, outcomes) == Progress::Do(
            Step::CreateSession,
        ),
    ensures
        outcomes.len() == 8,
        forall|i: int| 0 <= i < 8 ==> #[trigger] outcomes[i],
        plan(Ceremony::CompleteAuthentication)[1] == Step::TakeState,
        plan(Ceremony::CompleteAuthentication)[2] == Step::FindState,
        plan(Ceremony::CompleteAuthentication)[5] == Step::Finish,
        plan(Ceremony::CompleteAuthentication)[7] == Step::CountUpdate,
{
    law_ceremonies_take_every_step(Ceremony::CompleteAuthentication, outcomes);
}

/// What answers the beginning of a sign-on carries a challenge and no session
/// token, and no session is opened on the way, at whichever path it was asked for.
pub proof fn law_login_begins_with_a_challenge(
    path: Seq<char>,
    user: Seq<char>,
    options: JsonView,
    state: Seq<char>,
    outcomes: Seq<bool>,
)
    requires
        path == "/webauthn/login/begin"@ || path == "/passkey/login"@,
        webauthn::keeps_challenge(options, state, "ast"@),
    ensures
        ceremony_at(path) == Some(Ceremony::BeginAuthentication),
        json::member(begun_document(user, options), "options"@) == Some(options),
        webauthn::challenge_in(options, "publicKey"@) is Some,
        json::member(begun_document(user, options), "token"@) is None,
        progress(Ceremony::BeginAuthentication, outcomes) != Progress::Do(Step::CreateSession),
{
    reveal_strlit("/webauthn/register/begin");
    reveal_strlit("/passkey/register");
    reveal_strlit("/webauthn/register/complete");
    reveal_strlit("/webauthn/login/begin");
    reveal_strlit("/passkey/login");
    assert("/webauthn/register/begin"@.len() == 24);
    assert("/passkey/register"@.len() == 17);
    assert("/webauthn/register/complete"@.len() == 27);
    assert("/webauthn/login/begin"@.len() == 21);
    assert("/passkey/login"@.len() == 14);
    reveal_strlit("status");
    reveal_strlit("user");
    reveal_strlit("options");
    reveal_strlit("token");
    assert("status"@.len() == 6);
    assert("user"@.len() == 4);
    assert("options"@.len() == 7);
    assert("token"@.len() == 5);
    law_ceremonies_take_every_step(Ceremony::BeginAuthentication, outcomes);
}

/// The older paths begin what the newer ones begin.
pub proof fn law_older_paths_are_aliases()
    ensures
        ceremony_at("/passkey/register"@) == ceremony_at("/webauthn/register/begin"@),
        ceremony_at("/passkey/login"@) == ceremony_at("/webauthn/login/begin"@),
{
    reveal_strlit("/webauthn/register/begin");
    reveal_strlit("/passkey/register");
    reveal_strlit("/webauthn/register/complete");
    reveal_strlit("/webauthn/login/begin");
    reveal_strlit("/passkey/login");
    assert("/webauthn/register/begin"@.len() == 24);
    assert("/passkey/register"@.len() == 17);
    assert("/webauthn/register/complete"@.len() == 27);
    assert("/webauthn/login/begin"@.len() == 21);
    assert("/passkey/login"@.len() == 14);
}

/// A stored state serves its own kind of ceremony only.
pub proof fn law_purposes_are_apart()
    ensures
        purpose_of(Ceremony::BeginRegistration) == purpose_of(Ceremony::CompleteRegistration),
        purpose_of(Ceremony::BeginAuthentication) == purpose_of(Ceremony::CompleteAuthentication),
        purpose_of(Ceremony::BeginRegistration) != purpose_of(Ceremony::BeginAuthentication),
{
    reveal_strlit("webauthn-registration");
    reveal_strlit("webauthn-authentication");
    assert("webauthn-registration"@.len() != "webauthn-authentication"@.len());
}

} // verus!
