//! What passkeys are owed: how a service is set up, which steps a ceremony takes
//! and in which order, and what is answered where one fails.
use vstd::prelude::*;
use crate::json;
use crate::json::{Json, JsonView};
use crate::laws::answers;
use crate::laws::answers::{refuses, says};
use crate::laws::texts;
use crate::mfa;
use crate::outside;
use crate::passkeys;
use crate::passkeys::{
    Ceremony, PasskeyError, PasskeyService, PasskeySettings, Progress, Started, Step,
};
use crate::reply::Reply;
use crate::text;
use crate::text_laws;
use crate::webauthn;

verus! {

/// A service that is set up has its settings as made, or their defaults: the
/// local origin, no subdomains, no other port, challenges for five minutes and
/// sessions for an hour.
pub proof fn law_services_have_defaults(found: PasskeySettings, service: PasskeyService)
    requires
        call_ensures(PasskeyService::from_settings, (&found,), Ok(service)),
    ensures
        found.origin matches Some(origin) ==> service.party.origin@ == origin@,
        found.origin is None ==> service.party.origin@ == "http://localhost:8004"@,
        found.id matches Some(id) ==> service.party.id@ == id@,
        found.name matches Some(name) ==> service.party.name@ == name@,
        found.name is None ==> service.party.name@ == "AI Scraping Defense Admin"@,
        service.party.allow_subdomains <==> (found.allow_subdomains matches Some(word)
            && text::same_ignoring_case(word@, "true"@)),
        service.party.allow_any_port <==> (found.allow_any_port matches Some(word)
            && text::same_ignoring_case(word@, "true"@)),
        found.additional_origins matches Some(list) ==> text::views(
            service.party.additional_origins@,
        ) == text::listed(list@),
        found.challenge_ttl_seconds is None ==> service.challenge_ttl_seconds == 300,
        60 <= service.challenge_ttl_seconds <= 900,
        found.session_ttl_seconds is None ==> service.session_ttl_seconds == 3_600,
        300 <= service.session_ttl_seconds <= 86_400,
{
}

/// A service without an identifier of its own takes the domain of its origin.
pub proof fn law_services_are_named_by_domain(found: PasskeySettings, service: PasskeyService)
    requires
        call_ensures(PasskeyService::from_settings, (&found,), Ok(service)),
        found.id is None,
    ensures
        outside::url_of(service.party.origin@) matches Ok(url) && (url.domain matches Some(domain)
            ==> service.party.id@ == domain) && (url.domain is None ==> service.party.id@
            == "localhost"@),
{
}

/// A time that is set is kept within its bounds.
pub proof fn law_service_times(
    found: PasskeySettings,
    service: PasskeyService,
    challenge: i32,
    session: i32,
)
    requires
        call_ensures(PasskeyService::from_settings, (&found,), Ok(service)),
        found.challenge_ttl_seconds matches Some(word) && word@ == text::decimal_int(
            challenge as int,
        ),
        found.session_ttl_seconds matches Some(word) && word@ == text::decimal_int(session as int),
    ensures
        service.challenge_ttl_seconds == (if challenge < 60 {
            60i32
        } else if challenge > 900 {
            900i32
        } else {
            challenge
        }),
        service.session_ttl_seconds == (if session < 300 {
            300i32
        } else if session > 86_400 {
            86_400i32
        } else {
            session
        }),
{
    text_laws::law_signed_decimal_round_trip(challenge as i64);
    text_laws::law_signed_decimal_round_trip(session as i64);
}

/// A service is set up exactly where its origin is a URL, its identifier fits the
/// origin, and every further origin is a URL; each fault is named.
pub proof fn law_services_are_checked(
    found: PasskeySettings,
    origin: String,
    id: String,
    service: Result<PasskeyService, PasskeyError>,
)
    requires
        call_ensures(PasskeyService::from_settings, (&found,), service),
        found.origin == Some(origin),
        found.id == Some(id),
    ensures
        outside::url_of(origin@) matches Err(error) ==> (service matches Err(
            PasskeyError::Origin(message),
        ) && message@ == error),
        outside::url_of(origin@) is Ok ==> (webauthn::relying_party_fault(id@, origin@)
            matches Some(error) ==> (service matches Err(PasskeyError::Party(message)) && message@
            == error)),
        outside::url_of(origin@) is Ok && webauthn::relying_party_fault(id@, origin@) is None
            && found.additional_origins is None ==> service is Ok,
        service matches Err(PasskeyError::AdditionalOrigin(bad, _)) ==> outside::url_of(bad@)
            is Err && (found.additional_origins matches Some(list) && text::listed(list@).contains(
            bad@,
        )),
{
    let none = Seq::<char>::empty();
    let extra = match found.additional_origins {
        Some(list) => text::listed(list@),
        None => text::listed(none),
    };
    lemma_bad_origins(extra);
    texts::lemma_nothing_listed();
}

/// An origin that is found bad is one of the list.
proof fn lemma_bad_origins(origins: Seq<Seq<char>>)
    ensures
        passkeys::first_bad_origin(origins) matches Some((bad, error)) ==> origins.contains(bad)
            && outside::url_of(bad) == Err::<outside::UrlView, Seq<char>>(error),
    decreases origins.len(),
{
    if origins.len() > 0 {
        let rest = origins.drop_last();
        lemma_bad_origins(rest);
        if let Some((bad, error)) = passkeys::first_bad_origin(rest) {
            let i = choose|i: int| 0 <= i < rest.len() && rest[i] == bad;
            assert(origins[i] == bad);
        } else {
            assert(origins[origins.len() - 1] == origins.last());
        }
    }
}

/// What tells these names apart.
proof fn lemma_paths_differ()
    ensures
        "/webauthn/register/begin"@.len() == 24,
        "/passkey/register"@.len() == 17,
        "/webauthn/register/complete"@.len() == 27,
        "/webauthn/login/begin"@.len() == 21,
        "/passkey/login"@.len() == 14,
        "/webauthn/login/complete"@.len() == 24,
        "/webauthn/register/begin"@[10] == 'r',
        "/webauthn/login/complete"@[10] == 'l',
{
    reveal_strlit("/webauthn/register/begin");
    reveal_strlit("/passkey/register");
    reveal_strlit("/webauthn/register/complete");
    reveal_strlit("/webauthn/login/begin");
    reveal_strlit("/passkey/login");
    reveal_strlit("/webauthn/login/complete");
}

/// Each path leads to its ceremony, and no other path to any.
pub proof fn law_paths_lead_to_ceremonies(path: &str, ceremony: Option<Ceremony>)
    requires
        call_ensures(passkeys::ceremony_of, (path,), ceremony),
    ensures
        ceremony == Some(Ceremony::BeginRegistration) <==> path@ == "/webauthn/register/begin"@
            || path@ == "/passkey/register"@,
        ceremony == Some(Ceremony::CompleteRegistration) <==> path@
            == "/webauthn/register/complete"@,
        ceremony == Some(Ceremony::BeginAuthentication) <==> path@ == "/webauthn/login/begin"@
            || path@ == "/passkey/login"@,
        ceremony == Some(Ceremony::CompleteAuthentication) <==> path@
            == "/webauthn/login/complete"@,
{
    lemma_paths_differ();
}

/// Passkeys are registered by administrators; anybody may sign on.
pub proof fn law_registration_needs_an_administrator(ceremony: Ceremony, needs: bool)
    requires
        call_ensures(passkeys::needs_administrator, (ceremony,), needs),
    ensures
        needs <==> ceremony is BeginRegistration || ceremony is CompleteRegistration,
{
}

/// A ceremony takes its steps in order. What is begun is started before its state
/// is stored; what is completed takes the stored state once, before the answer of
/// the browser is judged and anything is stored; a session opens last of all.
pub proof fn law_ceremonies_have_steps(ceremony: Ceremony, steps: Vec<Step>)
    requires
        call_ensures(passkeys::steps_of, (ceremony,), steps),
    ensures
        ceremony is BeginRegistration ==> steps@ == seq![
            Step::Storage,
            Step::SaveUser,
            Step::LoadUser,
            Step::ReadUser,
            Step::LoadPasskeys,
            Step::Start,
            Step::SaveState,
        ],
        ceremony is CompleteRegistration ==> steps@ == seq![
            Step::Storage,
            Step::TakeState,
            Step::FindState,
            Step::ReadState,
            Step::Finish,
            Step::SavePasskey,
            Step::CountPasskey,
        ],
        ceremony is BeginAuthentication ==> steps@ == seq![
            Step::Storage,
            Step::LoadPasskeys,
            Step::Start,
            Step::SaveState,
        ],
        ceremony is CompleteAuthentication ==> steps@ == seq![
            Step::Storage,
            Step::TakeState,
            Step::FindState,
            Step::ReadState,
            Step::LoadPasskeys,
            Step::Finish,
            Step::UpdatePasskey,
            Step::CountUpdate,
            Step::CreateSession,
        ],
{
}

/// A ceremony goes on to the next of its steps, fails at the one that failed, and
/// is done after the last.
pub proof fn law_ceremonies_go_on(
    ceremony: Ceremony,
    steps: Vec<Step>,
    done: usize,
    succeeded: bool,
    progress: Progress,
)
    requires
        call_ensures(passkeys::steps_of, (ceremony,), steps),
        done < steps@.len(),
        call_ensures(passkeys::advance, (ceremony, done, succeeded), progress),
    ensures
        !succeeded ==> progress == Progress::Failed(steps@[done as int]),
        succeeded && done + 1 < steps@.len() ==> progress == Progress::Do(steps@[done + 1]),
        succeeded && done + 1 == steps@.len() ==> progress == Progress::Done,
{
}

/// Each step that fails has its answer.
pub proof fn law_failed_steps_are_answered(ceremony: Ceremony, step: Step, answer: Reply)
    requires
        call_ensures(passkeys::refuse_step, (ceremony, step), answer),
    ensures
        step is Storage ==> refuses(
            answer@,
            503,
            "Postgres is required for persisted admin auth state"@,
        ),
        step is SaveUser ==> refuses(answer@, 500, "could not persist WebAuthn user"@),
        step is LoadUser ==> refuses(answer@, 500, "could not load WebAuthn user"@),
        step is ReadUser ==> refuses(answer@, 500, "stored WebAuthn user ID is invalid"@),
        step is LoadPasskeys ==> refuses(answer@, 500, "could not load WebAuthn credentials"@),
        step is Start && ceremony is BeginRegistration ==> refuses(
            answer@,
            400,
            "could not begin WebAuthn registration"@,
        ),
        step is Start && ceremony is BeginAuthentication ==> refuses(
            answer@,
            400,
            "could not begin WebAuthn authentication"@,
        ),
        step is SaveState ==> refuses(answer@, 500, "could not persist WebAuthn ceremony state"@),
        step is TakeState ==> refuses(answer@, 500, "could not consume WebAuthn ceremony state"@),
        step is FindState ==> refuses(
            answer@,
            400,
            "WebAuthn ceremony is missing, expired, or already used"@,
        ),
        step is ReadState ==> refuses(answer@, 500, "stored WebAuthn ceremony state is invalid"@),
        step is Finish && ceremony is CompleteRegistration ==> refuses(
            answer@,
            400,
            "WebAuthn registration response was not valid"@,
        ),
        step is Finish && ceremony is CompleteAuthentication ==> refuses(
            answer@,
            400,
            "WebAuthn authentication response was not valid"@,
        ),
        step is SavePasskey ==> refuses(answer@, 500, "could not persist WebAuthn credential"@),
        step is CountPasskey ==> refuses(answer@, 409, "credential is already registered"@),
        step is UpdatePasskey ==> refuses(answer@, 500, "could not update WebAuthn credential"@),
        step is CountUpdate ==> refuses(
            answer@,
            500,
            "WebAuthn credential disappeared during authentication"@,
        ),
        step is CreateSession ==> refuses(answer@, 500, "could not create admin session"@),
{
    let failure = passkeys::failure_of(ceremony, step);
    answers::lemma_refusal(failure.0, failure.1);
}

/// The state of a ceremony is stored for registration or for sign-on.
pub proof fn law_states_have_a_purpose(ceremony: Ceremony, purpose: &'static str)
    requires
        call_ensures(passkeys::purpose, (ceremony,), purpose),
    ensures
        ceremony is BeginRegistration || ceremony is CompleteRegistration ==> purpose@
            == "webauthn-registration"@,
        ceremony is BeginAuthentication || ceremony is CompleteAuthentication ==> purpose@
            == "webauthn-authentication"@,
{
}

/// What tells these names apart.
proof fn lemma_passkey_names_differ()
    ensures
        "status"@.len() == 6,
        "user"@.len() == 4,
        "options"@.len() == 7,
        "registered"@.len() == 10,
        "token"@.len() == 5,
        "token_type"@.len() == 10,
        "expires_in"@.len() == 10,
        "registered"@[0] == 'r',
        "token_type"@[0] == 't',
        "expires_in"@[0] == 'e',
{
    reveal_strlit("status");
    reveal_strlit("user");
    reveal_strlit("options");
    reveal_strlit("registered");
    reveal_strlit("token");
    reveal_strlit("token_type");
    reveal_strlit("expires_in");
}

/// A ceremony is answered with what the browser needs next, a registration with
/// its success, and a sign-on with the token of a session.
pub proof fn law_ceremonies_are_answered(
    user: &str,
    options: Json,
    token: &str,
    seconds: i32,
    begun: Json,
    registered: Json,
    session: Json,
)
    requires
        call_ensures(passkeys::begun_answer, (user, options), begun),
        call_ensures(passkeys::registered_answer, (user,), registered),
        call_ensures(passkeys::session_answer, (user, token, seconds), session),
    ensures
        says(begun@, "status"@, "success"@),
        says(begun@, "user"@, user@),
        json::member(begun@, "options"@) == Some(options@),
        json::member(begun@, "token"@) is None,
        says(registered@, "status"@, "success"@),
        says(registered@, "user"@, user@),
        json::member(registered@, "registered"@) == Some(JsonView::Bool(true)),
        says(session@, "status"@, "success"@),
        says(session@, "user"@, user@),
        says(session@, "token"@, token@),
        says(session@, "token_type"@, "Bearer"@),
        json::member(session@, "expires_in"@) == Some(JsonView::Int(seconds as int)),
{
    lemma_passkey_names_differ();
}

/// A session has a token of 64 hexadecimal digits, and is filed under its hash.
pub proof fn law_sessions_are_new(session: (String, String))
    requires
        call_ensures(passkeys::new_session, (), session),
    ensures
        session.0@.len() == 64,
        session.1@ == outside::hex_text(
            outside::sha256_of(vstd::utf8::encode_utf8(session.0@))@,
        ),
{
    assert(mfa::is_token(session.0@, 32));
}

/// What is stored is read back or answered 500: identifiers, states and passkeys.
pub proof fn law_stored_values_are_read(
    user_id: &str,
    state: &str,
    list: Vec<String>,
    user: Result<(), Reply>,
    registration: Result<(), Reply>,
    authentication: Result<(), Reply>,
    ids: Result<Vec<String>, Reply>,
)
    requires
        call_ensures(passkeys::check_user_id, (user_id,), user),
        call_ensures(passkeys::check_registration_state, (state,), registration),
        call_ensures(passkeys::check_authentication_state, (state,), authentication),
        call_ensures(passkeys::read_passkeys, (&list,), ids),
    ensures
        user is Ok <==> webauthn::identifier_bytes(user_id@) is Some,
        user matches Err(refusal) ==> refuses(
            refusal@,
            500,
            "stored WebAuthn user ID is invalid"@,
        ),
        registration is Ok <==> webauthn::is_registration_state(state@),
        registration matches Err(refusal) ==> refuses(
            refusal@,
            500,
            "stored WebAuthn ceremony state is invalid"@,
        ),
        authentication is Ok <==> webauthn::is_authentication_state(state@),
        authentication matches Err(refusal) ==> refuses(
            refusal@,
            500,
            "stored WebAuthn ceremony state is invalid"@,
        ),
        ids is Ok <==> forall|i: int|
            0 <= i < list@.len() ==> webauthn::passkey_id_of((#[trigger] list@[i])@) is Some,
        ids matches Err(refusal) ==> refuses(
            refusal@,
            500,
            "stored WebAuthn credential is invalid"@,
        ),
        ids matches Ok(found) ==> found@.len() == list@.len() && forall|i: int|
            0 <= i < list@.len() ==> Some((#[trigger] found@[i])@) == webauthn::passkey_id_of(
                list@[i]@,
            ),
{
    answers::lemma_refusal(500, "stored WebAuthn user ID is invalid"@);
    answers::lemma_refusal(500, "stored WebAuthn ceremony state is invalid"@);
    answers::lemma_refusal(500, "stored WebAuthn credential is invalid"@);
    let views = text::views(list@);
    assert(views.len() == list@.len());
    assert forall|i: int| 0 <= i < list@.len() implies #[trigger] views[i] == list@[i]@ by {}
    if forall|i: int|
        0 <= i < list@.len() ==> webauthn::passkey_id_of((#[trigger] list@[i])@) is Some {
        assert forall|i: int| 0 <= i < views.len() implies webauthn::passkey_id_of(
            #[trigger] views[i],
        ) is Some by {
            assert(views[i] == list@[i]@);
        }
    }
    if webauthn::all_passkeys(views) {
        assert forall|i: int| 0 <= i < list@.len() implies webauthn::passkey_id_of(
            (#[trigger] list@[i])@,
        ) is Some by {
            assert(webauthn::passkey_id_of(views[i]) is Some);
        }
    }
    if let Ok(found) = ids {
        let shown = text::views(found@);
        assert(shown.len() == found@.len());
        assert(passkeys::ids_of(views).len() == views.len());
        assert forall|i: int| 0 <= i < list@.len() implies Some((#[trigger] found@[i])@)
            == webauthn::passkey_id_of(list@[i]@) by {
            assert(shown[i] == found@[i]@);
            assert(webauthn::passkey_id_of(views[i]) is Some);
        }
    }
}

/// A ceremony that was started hands out its options as a document and keeps its
/// state; one that was not is answered 400.
pub proof fn law_started_ceremonies_hand_out_options(
    options: String,
    state: String,
    message: &str,
    taken: Result<Started, Reply>,
    failed: Result<Started, Reply>,
)
    requires
        call_ensures(passkeys::take_started, (Some((options, state)), message), taken),
        call_ensures(passkeys::take_started, (None, message), failed),
    ensures
        outside::json_text(vstd::utf8::encode_utf8(options@)) matches Some(document) ==> (
        taken matches Ok(started) && started.options@ == document && started.state@ == state@),
        outside::json_text(vstd::utf8::encode_utf8(options@)) is None ==> (taken matches Err(
            refusal,
        ) && refuses(refusal@, 400, message@)),
        failed matches Err(refusal) && refuses(refusal@, 400, message@),
{
    answers::lemma_refusal(400, message@);
}

/// A sign-on without passkeys is answered 404, and one with a broken passkey 500.
pub proof fn law_sign_on_needs_passkeys(
    service: PasskeyService,
    list: Vec<String>,
    started: Result<Started, Reply>,
)
    requires
        call_ensures(passkeys::begin_authentication, (&service, &list), started),
    ensures
        list@.len() == 0 ==> (started matches Err(refusal) && refuses(
            refusal@,
            404,
            "no passkeys are registered for this user"@,
        )),
        !webauthn::all_passkeys(text::views(list@)) ==> (started matches Err(refusal) && refuses(
            refusal@,
            500,
            "stored WebAuthn credential is invalid"@,
        )),
        list@.len() > 0 && webauthn::all_passkeys(text::views(list@)) && webauthn::is_valid_party(
            service.party@,
        ) ==> started is Ok,
{
    answers::lemma_refusal(404, "no passkeys are registered for this user"@);
    answers::lemma_refusal(500, "stored WebAuthn credential is invalid"@);
    assert(text::views(list@).len() == list@.len());
}

/// A registration is begun exactly where the service, the user and the stored
/// passkeys are good.
pub proof fn law_registrations_begin(
    service: PasskeyService,
    user_id: &str,
    user: &str,
    list: Vec<String>,
    started: Result<Started, Reply>,
)
    requires
        call_ensures(passkeys::begin_registration, (&service, user_id, user, &list), started),
    ensures
        started is Ok <==> webauthn::all_passkeys(text::views(list@)) && webauthn::is_valid_party(
            service.party@,
        ) && user@.len() > 0 && webauthn::identifier_bytes(user_id@) is Some,
        !webauthn::all_passkeys(text::views(list@)) ==> (started matches Err(refusal) && refuses(
            refusal@,
            500,
            "stored WebAuthn credential is invalid"@,
        )),
        webauthn::all_passkeys(text::views(list@)) ==> (started matches Err(refusal) ==> refuses(
            refusal@,
            400,
            "could not begin WebAuthn registration"@,
        )),
{
    answers::lemma_refusal(400, "could not begin WebAuthn registration"@);
    answers::lemma_refusal(500, "stored WebAuthn credential is invalid"@);
}

/// A proved registration is stored under the identifier of its passkey; any other
/// is answered 400.
pub proof fn law_proved_registrations_are_stored(
    service: PasskeyService,
    credential: &str,
    state: &str,
    stored: Result<(String, String), Reply>,
)
    requires
        call_ensures(passkeys::complete_registration, (&service, credential, state), stored),
    ensures
        webauthn::registered_passkey(service.party@, credential@, state@) matches Some(passkey)
            ==> {
            &&& webauthn::passkey_id_of(passkey) matches Some(id) ==> (stored matches Ok(pair)
                && pair.0@ == id && pair.1@ == passkey)
            &&& webauthn::passkey_id_of(passkey) is None ==> (stored matches Err(refusal)
                && refuses(refusal@, 500, "could not encode WebAuthn credential ID"@))
        },
        webauthn::registered_passkey(service.party@, credential@, state@) is None ==> (
        stored matches Err(refusal) && refuses(
            refusal@,
            400,
            "WebAuthn registration response was not valid"@,
        )),
{
    answers::lemma_refusal(500, "could not encode WebAuthn credential ID"@);
    answers::lemma_refusal(400, "WebAuthn registration response was not valid"@);
}

/// A proved sign-on updates the passkey that it used, which must be one of the
/// user's; any other is answered 400.
pub proof fn law_proved_sign_ons_use_a_known_passkey(
    result: Option<&str>,
    list: Vec<String>,
    matched: Option<String>,
    proved: &str,
    stored: Result<(String, String), Reply>,
)
    requires
        call_ensures(passkeys::match_passkey, (&list, proved), matched),
        call_ensures(passkeys::accept_authentication, (result, &list), stored),
        result matches Some(words) ==> words@ == proved@,
    ensures
        result is None ==> (stored matches Err(refusal) && refuses(
            refusal@,
            400,
            "WebAuthn authentication response was not valid"@,
        )),
        result is Some && matched is None ==> (stored matches Err(refusal) && refuses(
            refusal@,
            400,
            "authentication used an unknown credential"@,
        )),
        result is Some ==> (matched matches Some(passkey) ==> (webauthn::passkey_id_of(passkey@)
            matches Some(id) ==> (stored matches Ok(pair) && pair.0@ == id && pair.1@ == passkey@))),
{
    answers::lemma_refusal(400, "WebAuthn authentication response was not valid"@);
    answers::lemma_refusal(400, "authentication used an unknown credential"@);
}

/// The passkey that a sign-on used is the first that it updates.
pub proof fn law_the_first_passkey_is_updated(
    list: Vec<String>,
    proved: &str,
    at: int,
    matched: Option<String>,
)
    requires
        call_ensures(passkeys::match_passkey, (&list, proved), matched),
        0 <= at <= list@.len(),
        forall|i: int|
            0 <= i < at ==> webauthn::updated_passkey((#[trigger] list@[i])@, proved@) is None,
        at < list@.len() ==> webauthn::updated_passkey(list@[at]@, proved@) is Some,
    ensures
        at < list@.len() ==> text::opt_view(matched) == webauthn::updated_passkey(
            list@[at]@,
            proved@,
        ),
        at == list@.len() ==> matched is None,
{
    let views = text::views(list@);
    assert(views.len() == list@.len());
    assert forall|i: int| 0 <= i < at implies webauthn::updated_passkey(
        #[trigger] views[i],
        proved@,
    ) is None by {
        assert(views[i] == list@[i]@);
    }
    if at < list@.len() {
        assert(views[at] == list@[at]@);
    }
    lemma_used_passkey(views, proved@, at);
}

/// The first passkey that is updated is the one that is found.
proof fn lemma_used_passkey(list: Seq<Seq<char>>, proved: Seq<char>, at: int)
    requires
        0 <= at <= list.len(),
        forall|i: int|
            0 <= i < at ==> webauthn::updated_passkey(#[trigger] list[i], proved) is None,
        at < list.len() ==> webauthn::updated_passkey(list[at], proved) is Some,
    ensures
        at < list.len() ==> passkeys::used_passkey(list, proved) == webauthn::updated_passkey(
            list[at],
            proved,
        ),
        at == list.len() ==> passkeys::used_passkey(list, proved) is None,
    decreases list.len(),
{
    if list.len() > 0 {
        let rest = list.drop_last();
        assert(list.last() == list[list.len() - 1]);
        if at < list.len() {
            if at < rest.len() {
                assert(rest[at] == list[at]);
            }
            assert forall|i: int| 0 <= i < at implies webauthn::updated_passkey(
                #[trigger] rest[i],
                proved,
            ) is None by {
                assert(rest[i] == list[i]);
            }
            lemma_used_passkey(rest, proved, at);
        } else {
            assert forall|i: int| 0 <= i < rest.len() implies webauthn::updated_passkey(
                #[trigger] rest[i],
                proved,
            ) is None by {
                assert(rest[i] == list[i]);
            }
            lemma_used_passkey(rest, proved, at - 1);
        }
    }
}

/// A sign-on is completed with what the browser proved to the service.
pub proof fn law_sign_ons_are_completed(
    service: PasskeyService,
    credential: &str,
    state: &str,
    list: Vec<String>,
    proved: Option<&str>,
    accepted: Result<(String, String), Reply>,
    completed: Result<(String, String), Reply>,
)
    requires
        webauthn::proved_authentication(service.party@, credential@, state@)
            == text::opt_str_view(proved),
        call_ensures(passkeys::accept_authentication, (proved, &list), accepted),
        call_ensures(
            passkeys::complete_authentication,
            (&service, credential, state, &list),
            completed,
        ),
    ensures
        completed is Ok <==> accepted is Ok,
        completed matches Ok(pair) ==> pair.0@ == accepted->Ok_0.0@ && pair.1@
            == accepted->Ok_0.1@,
        completed matches Err(refusal) ==> refusal@ == accepted->Err_0@,
{
}

/// The challenge that a browser is asked to answer is the one that is kept in the
/// state of the ceremony, and the browser is asked for the service that is set up.
pub proof fn law_challenges_are_kept(
    service: PasskeyService,
    user_id: &str,
    user: &str,
    list: Vec<String>,
    registering: Started,
    signing_on: Started,
)
    requires
        call_ensures(
            passkeys::begin_registration,
            (&service, user_id, user, &list),
            Ok(registering),
        ),
        call_ensures(passkeys::begin_authentication, (&service, &list), Ok(signing_on)),
    ensures
        json::member(registering.options@, "publicKey"@) matches Some(asked) && (json::member(
            asked,
            "rp"@,
        ) matches Some(party) && says(party, "id"@, service.party.id@) && says(
            party,
            "name"@,
            service.party.name@,
        )) && (json::member(asked, "user"@) matches Some(account) && says(
            account,
            "name"@,
            user@,
        )) && json::text_of(json::member(asked, "challenge"@)) is Some && (outside::json_text(
            vstd::utf8::encode_utf8(registering.state@),
        ) matches Some(kept) && (json::member(kept, "rs"@) matches Some(state) && json::text_of(
            json::member(state, "challenge"@),
        ) == json::text_of(json::member(asked, "challenge"@)))),
        json::member(signing_on.options@, "publicKey"@) matches Some(asked) && says(
            asked,
            "rpId"@,
            service.party.id@,
        ) && json::text_of(json::member(asked, "challenge"@)) is Some && (outside::json_text(
            vstd::utf8::encode_utf8(signing_on.state@),
        ) matches Some(kept) && (json::member(kept, "ast"@) matches Some(state) && json::text_of(
            json::member(state, "challenge"@),
        ) == json::text_of(json::member(asked, "challenge"@)))),
        webauthn::is_registration_state(registering.state@),
{
}

/// A browser is offered the passkeys of the user, and no others: to sign on with
/// one of them, and not to register one of them again.
pub proof fn law_known_passkeys_are_offered(
    service: PasskeyService,
    user_id: &str,
    user: &str,
    list: Vec<String>,
    registering: Started,
    signing_on: Started,
    i: int,
)
    requires
        call_ensures(
            passkeys::begin_registration,
            (&service, user_id, user, &list),
            Ok(registering),
        ),
        call_ensures(passkeys::begin_authentication, (&service, &list), Ok(signing_on)),
        0 <= i < list@.len(),
    ensures
        json::member(signing_on.options@, "publicKey"@) matches Some(asked) && (json::member(
            asked,
            "allowCredentials"@,
        ) matches Some(JsonView::Array(entries)) && entries.len() == list@.len() && (json::text_of(
            json::member(entries[i], "id"@),
        ) matches Some(id) && webauthn::passkey_id_of(list@[i]@) == Some(
            seq!['"'] + id + seq!['"'],
        ))),
        json::member(registering.options@, "publicKey"@) matches Some(asked) && (json::member(
            asked,
            "excludeCredentials"@,
        ) matches Some(JsonView::Array(entries)) && entries.len() == list@.len() && (json::text_of(
            json::member(entries[i], "id"@),
        ) matches Some(id) && webauthn::passkey_id_of(list@[i]@) == Some(
            seq!['"'] + id + seq!['"'],
        ))),
{
    assert(text::views(list@).len() == list@.len());
    assert(text::views(list@)[i] == list@[i]@);
    let asked = json::member(signing_on.options@, "publicKey"@)->0;
    let entries = json::member(asked, "allowCredentials"@)->0->Array_0;
    assert(json::text_of(json::member(entries[i], "id"@)) is Some);
    let asked_too = json::member(registering.options@, "publicKey"@)->0;
    let excluded = json::member(asked_too, "excludeCredentials"@)->0->Array_0;
    assert(json::text_of(json::member(excluded[i], "id"@)) is Some);
}

} // verus!
