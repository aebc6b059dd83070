//! The relying party of passkey ceremonies, and the calls into the library that
//! verifies what browsers answer. Credentials, passkeys and the states of
//! ceremonies are JSON texts here.
use vstd::prelude::*;
use webauthn_rs::prelude::{AuthenticationResult, Passkey, PasskeyAuthentication};
use webauthn_rs::prelude::{PasskeyRegistration, Url, Uuid};
use webauthn_rs::WebauthnBuilder;
use crate::json;
use crate::json::JsonView;
use crate::outside;
use crate::text;

verus! {

/// Who asks browsers for passkeys.
#[derive(Debug)]
pub struct RelyingParty {
    pub id: String,
    pub name: String,
    pub origin: String,
    pub allow_subdomains: bool,
    pub allow_any_port: bool,
    pub additional_origins: Vec<String>,
}

/// What a relying party is configured with.
pub ghost struct PartyView {
    pub id: Seq<char>,
    pub name: Seq<char>,
    pub origin: Seq<char>,
    pub allow_subdomains: bool,
    pub allow_any_port: bool,
    pub additional_origins: Seq<Seq<char>>,
}

impl View for RelyingParty {
    type V = PartyView;

    open spec fn view(&self) -> PartyView {
        PartyView {
            id: self.id@,
            name: self.name@,
            origin: self.origin@,
            allow_subdomains: self.allow_subdomains,
            allow_any_port: self.allow_any_port,
            additional_origins: text::views(self.additional_origins@),
        }
    }
}

/// What is wrong with a relying party of this identifier at this origin.
pub uninterp spec fn relying_party_fault(id: Seq<char>, origin: Seq<char>) -> Option<Seq<char>>;

/// The identifier is the domain of the origin, or a domain above it.
pub open spec fn is_effective_domain(id: Seq<char>, domain: Option<Seq<char>>) -> bool {
    match domain {
        Some(name) => name == id || ("."@ + id).is_suffix_of(name),
        None => false,
    }
}

/// Calls `webauthn_rs::WebauthnBuilder::new` for the text of its error. There is
/// none if and only if the identifier is an effective domain of the origin.
#[verifier::external_body]
pub(crate) fn check_relying_party(id: &str, origin: &str) -> (r: Option<String>)
    ensures
        text::opt_view(r) == relying_party_fault(id@, origin@),
        outside::url_of(origin@) matches Ok(url) ==> (r is None) == is_effective_domain(
            id@,
            url.domain,
        ),
{
    match Url::parse(origin) {
        Ok(origin) => WebauthnBuilder::new(id, &origin).err().map(|error| error.to_string()),
        Err(error) => Some(error.to_string()),
    }
}

/// The identifier of a stored passkey, where it is one.
pub uninterp spec fn passkey_id_of(passkey: Seq<char>) -> Option<Seq<char>>;

/// Every text is a stored passkey.
pub open spec fn all_passkeys(passkeys: Seq<Seq<char>>) -> bool {
    forall|i: int| 0 <= i < passkeys.len() ==> passkey_id_of(#[trigger] passkeys[i]) is Some
}

/// Calls `webauthn_rs::prelude::Passkey::cred_id` on a passkey in JSON.
#[verifier::external_body]
pub(crate) fn passkey_id(passkey: &str) -> (r: Option<String>)
    ensures
        text::opt_view(r) == passkey_id_of(passkey@),
{
    let passkey = serde_json::from_str::<Passkey>(passkey).ok()?;
    serde_json::to_string(passkey.cred_id()).ok()
}

/// The identifier is an effective domain of the origin, which is a URL.
pub open spec fn is_valid_party(party: PartyView) -> bool {
    match outside::url_of(party.origin) {
        Ok(url) => is_effective_domain(party.id, url.domain),
        Err(_) => false,
    }
}

/// The bytes that 32 hexadecimal digits with hyphens between their groups write.
pub open spec fn hyphenated_bytes(id: Seq<char>) -> Option<Seq<u8>> {
    let digits = id.subrange(0, 8) + id.subrange(9, 13) + id.subrange(14, 18) + id.subrange(19, 23)
        + id.subrange(24, 36);
    if id.len() == 36 && outside::hyphenated(digits) == id {
        outside::hex_bytes(digits)
    } else {
        None
    }
}

/// The bytes of an identifier: in its simple form, in its hyphenated form, or in
/// that form between braces or as a URN.
pub open spec fn identifier_bytes(id: Seq<char>) -> Option<Seq<u8>> {
    if id.len() == 32 {
        outside::hex_bytes(id)
    } else if id.len() == 38 && id[0] == '{' && id[37] == '}' {
        hyphenated_bytes(id.subrange(1, 37))
    } else if id.len() == 45 && text::same_ignoring_case(id.take(9), "urn:uuid:"@) {
        hyphenated_bytes(id.skip(9))
    } else {
        hyphenated_bytes(id)
    }
}

/// Calls `uuid::Uuid::parse_str` for the bytes of an identifier, if it is one.
#[verifier::external_body]
pub(crate) fn parse_identifier(id: &str) -> (r: Option<Vec<u8>>)
    ensures
        match r {
            Some(bytes) => identifier_bytes(id@) == Some(bytes@),
            None => identifier_bytes(id@) is None,
        },
{
    Uuid::parse_str(id).ok().map(|id| id.into_bytes().to_vec())
}

/// The challenge in a part of a document.
pub open spec fn challenge_in(document: JsonView, part: Seq<char>) -> Option<Seq<char>> {
    match json::member(document, part) {
        Some(found) => json::text_of(json::member(found, "challenge"@)),
        None => None,
    }
}

/// The options carry a challenge, and the state keeps that challenge in a part.
pub open spec fn keeps_challenge(options: JsonView, state: Seq<char>, part: Seq<char>) -> bool {
    &&& challenge_in(options, "publicKey"@) is Some
    &&& match outside::json_text(vstd::utf8::encode_utf8(state)) {
        Some(kept) => challenge_in(kept, part) == challenge_in(options, "publicKey"@),
        None => false,
    }
}

/// The list names the passkeys in order, each by its identifier; a stored
/// passkey's identifier stands in quotation marks.
pub open spec fn names_passkeys(list: Option<JsonView>, passkeys: Seq<Seq<char>>) -> bool {
    match list {
        Some(JsonView::Array(entries)) => {
            &&& entries.len() == passkeys.len()
            &&& forall|i: int|
                0 <= i < entries.len() ==> (match json::text_of(
                    json::member(#[trigger] entries[i], "id"@),
                ) {
                    Some(id) => passkey_id_of(passkeys[i]) == Some(seq!['"'] + id + seq!['"']),
                    None => false,
                })
        },
        _ => false,
    }
}

/// The options ask a browser for a new passkey: for this relying party, for this
/// user, and for none of the passkeys that the user has already.
pub open spec fn asks_registration(
    options: JsonView,
    party: PartyView,
    user_id: Seq<char>,
    user: Seq<char>,
    passkeys: Seq<Seq<char>>,
) -> bool {
    match json::member(options, "publicKey"@) {
        Some(asked) => match (json::member(asked, "rp"@), json::member(asked, "user"@)) {
            (Some(rp), Some(account)) => {
                let excluded = json::member(asked, "excludeCredentials"@);
                &&& json::member(rp, "id"@) == Some(JsonView::Text(party.id))
                &&& json::member(rp, "name"@) == Some(JsonView::Text(party.name))
                &&& json::member(account, "name"@) == Some(JsonView::Text(user))
                &&& json::member(account, "displayName"@) == Some(JsonView::Text(user))
                &&& identifier_bytes(user_id) matches Some(bytes) ==> json::member(
                    account,
                    "id"@,
                ) == Some(JsonView::Text(outside::base64url_of(bytes)))
                &&& if passkeys.len() == 0 {
                    excluded is None
                } else {
                    names_passkeys(excluded, passkeys)
                }
            },
            _ => false,
        },
        None => false,
    }
}

/// The meaning of what a ceremony begins with.
pub open spec fn begun(r: Option<(String, String)>) -> Option<(Seq<char>, Seq<char>)> {
    match r {
        Some((options, state)) => Some((options@, state@)),
        None => None,
    }
}

/// The passkeys that are handed in, if any.
pub open spec fn known(excluded: Option<&Vec<String>>) -> Seq<Seq<char>> {
    match excluded {
        Some(passkeys) => text::views(passkeys@),
        None => Seq::empty(),
    }
}

/// A registration can begin: there is a valid relying party, a name of the user,
/// and nothing but passkeys to exclude.
pub open spec fn can_register(
    party: PartyView,
    user: Seq<char>,
    passkeys: Seq<Seq<char>>,
) -> bool {
    is_valid_party(party) && user.len() > 0 && all_passkeys(passkeys)
}

/// What a registration begins with: options for the browser and a readable
/// state with the same challenge. It begins exactly where it can and the user's
/// identifier is one.
pub open spec fn begins_registration(
    begun: Option<(Seq<char>, Seq<char>)>,
    party: PartyView,
    user_id: Seq<char>,
    user: Seq<char>,
    passkeys: Seq<Seq<char>>,
) -> bool {
    match begun {
        Some((options, state)) => {
            &&& can_register(party, user, passkeys) && identifier_bytes(user_id) is Some
            &&& is_registration_state(state)
            &&& match outside::json_text(vstd::utf8::encode_utf8(options)) {
                Some(asked) => asks_registration(asked, party, user_id, user, passkeys)
                    && keeps_challenge(asked, state, "rs"@),
                None => false,
            }
        },
        None => !can_register(party, user, passkeys) || identifier_bytes(user_id) is None,
    }
}

/// Calls `webauthn_rs::Webauthn::start_passkey_registration`: the options for the
/// browser and the state of the ceremony, in JSON. The options name the relying
/// party and the user and exclude the passkeys that are handed in, if any, and the
/// state keeps their challenge. The call fails without a valid relying party,
/// without a name and an identifier of the user and for a text that is no
/// passkey. Which challenge it is, is random, and nothing is said of that.
#[verifier::external_body]
pub(crate) fn start_registration(
    party: &RelyingParty,
    user_id: &str,
    user: &str,
    excluded: Option<&Vec<String>>,
) -> (r: Option<(String, String)>)
    requires
        excluded is Some ==> excluded->0@.len() > 0,
    ensures
        begins_registration(begun(r), party@, user_id@, user@, known(excluded)),
{
    let origin = Url::parse(&party.origin).ok()?;
    let builder = WebauthnBuilder::new(&party.id, &origin).ok()?;
    let webauthn = builder.rp_name(&party.name).build().ok()?;
    let account = Uuid::parse_str(user_id).ok()?;
    let read = |key: &String| serde_json::from_str(key).map(|key: Passkey| key.cred_id().clone());
    let ids = excluded.map(|keys| keys.iter().map(read).collect()).transpose().ok()?;
    let (options, state) = webauthn.start_passkey_registration(account, user, user, ids).ok()?;
    Some((serde_json::to_string(&options).ok()?, serde_json::to_string(&state).ok()?))
}

/// The text is the stored state of a registration.
pub uninterp spec fn is_registration_state(state: Seq<char>) -> bool;

/// Calls `serde_json::from_str` for a `webauthn_rs::prelude::PasskeyRegistration`.
#[verifier::external_body]
pub(crate) fn reads_registration_state(state: &str) -> (r: bool)
    ensures
        r == is_registration_state(state@),
{
    serde_json::from_str::<PasskeyRegistration>(state).is_ok()
}

/// The passkey that a browser's answer to a registration proves.
pub uninterp spec fn registered_passkey(
    party: PartyView,
    credential: Seq<char>,
    state: Seq<char>,
) -> Option<Seq<char>>;

/// Calls `webauthn_rs::Webauthn::finish_passkey_registration`.
#[verifier::external_body]
pub(crate) fn finish_registration(party: &RelyingParty, credential: &str, state: &str) -> (r:
    Option<String>)
    ensures
        text::opt_view(r) == registered_passkey(party@, credential@, state@),
{
    let state = serde_json::from_str(state).ok()?;
    let credential = serde_json::from_str(credential).ok()?;
    let origin = Url::parse(&party.origin).ok()?;
    let mut builder = WebauthnBuilder::new(&party.id, &origin).ok()?;
    for extra in &party.additional_origins {
        builder = builder.append_allowed_origin(&Url::parse(extra).ok()?);
    }
    let builder = builder.allow_subdomains(party.allow_subdomains);
    let webauthn = builder.allow_any_port(party.allow_any_port).build().ok()?;
    let passkey = webauthn.finish_passkey_registration(&credential, &state).ok()?;
    serde_json::to_string(&passkey).ok()
}

/// The options ask a browser to use one of these passkeys with this relying party.
pub open spec fn asks_authentication(
    options: JsonView,
    party: PartyView,
    passkeys: Seq<Seq<char>>,
) -> bool {
    match json::member(options, "publicKey"@) {
        Some(asked) => {
            &&& json::member(asked, "rpId"@) == Some(JsonView::Text(party.id))
            &&& names_passkeys(json::member(asked, "allowCredentials"@), passkeys)
        },
        None => false,
    }
}

/// What an authentication begins with: options for the browser and a state with
/// the same challenge. It begins exactly where there is a valid relying party and
/// nothing but passkeys.
pub open spec fn begins_authentication(
    begun: Option<(Seq<char>, Seq<char>)>,
    party: PartyView,
    passkeys: Seq<Seq<char>>,
) -> bool {
    match begun {
        Some((options, state)) => {
            &&& is_valid_party(party) && all_passkeys(passkeys)
            &&& match outside::json_text(vstd::utf8::encode_utf8(options)) {
                Some(asked) => asks_authentication(asked, party, passkeys) && keeps_challenge(
                    asked,
                    state,
                    "ast"@,
                ),
                None => false,
            }
        },
        None => !is_valid_party(party) || !all_passkeys(passkeys),
    }
}

/// Calls `webauthn_rs::Webauthn::start_passkey_authentication`: the options for
/// the browser and the state of the ceremony, in JSON. The options name the
/// relying party and the passkeys that are handed in, and the state keeps their
/// challenge. The call fails without a valid relying party and for a text that
/// is no passkey only. Which challenge it is, is random, and nothing is said of
/// that, nor of what else the state holds.
#[verifier::external_body]
pub(crate) fn start_authentication(party: &RelyingParty, passkeys: &Vec<String>) -> (r: Option<
    (String, String),
>)
    ensures
        begins_authentication(begun(r), party@, text::views(passkeys@)),
{
    let origin = Url::parse(&party.origin).ok()?;
    let webauthn = WebauthnBuilder::new(&party.id, &origin).ok()?.build().ok()?;
    let passkeys = passkeys.iter().map(|passkey| serde_json::from_str::<Passkey>(passkey));
    let passkeys = passkeys.collect::<Result<Vec<Passkey>, serde_json::Error>>().ok()?;
    let (options, state) = webauthn.start_passkey_authentication(&passkeys).ok()?;
    Some((serde_json::to_string(&options).ok()?, serde_json::to_string(&state).ok()?))
}

/// The text is the stored state of an authentication.
pub uninterp spec fn is_authentication_state(state: Seq<char>) -> bool;

/// Calls `serde_json::from_str` for a `webauthn_rs::prelude::PasskeyAuthentication`.
#[verifier::external_body]
pub(crate) fn reads_authentication_state(state: &str) -> (r: bool)
    ensures
        r == is_authentication_state(state@),
{
    serde_json::from_str::<PasskeyAuthentication>(state).is_ok()
}

/// What a browser's answer to an authentication proves.
pub uninterp spec fn proved_authentication(
    party: PartyView,
    credential: Seq<char>,
    state: Seq<char>,
) -> Option<Seq<char>>;

/// Calls `webauthn_rs::Webauthn::finish_passkey_authentication`.
#[verifier::external_body]
pub(crate) fn finish_authentication(party: &RelyingParty, credential: &str, state: &str) -> (r:
    Option<String>)
    ensures
        text::opt_view(r) == proved_authentication(party@, credential@, state@),
{
    let state = serde_json::from_str(state).ok()?;
    let credential = serde_json::from_str(credential).ok()?;
    let origin = Url::parse(&party.origin).ok()?;
    let mut builder = WebauthnBuilder::new(&party.id, &origin).ok()?;
    for extra in &party.additional_origins {
        builder = builder.append_allowed_origin(&Url::parse(extra).ok()?);
    }
    let builder = builder.allow_subdomains(party.allow_subdomains);
    let webauthn = builder.allow_any_port(party.allow_any_port).build().ok()?;
    let result = webauthn.finish_passkey_authentication(&credential, &state).ok()?;
    serde_json::to_string(&result).ok()
}

/// A passkey with what an authentication says of it, where it is the one that
/// was used.
pub uninterp spec fn updated_passkey(passkey: Seq<char>, result: Seq<char>) -> Option<Seq<char>>;

/// Calls `webauthn_rs::prelude::Passkey::update_credential`: the passkey is handed
/// out if its identifier is that of the authentication, and keeps that identifier.
#[verifier::external_body]
pub(crate) fn update_passkey(passkey: &str, result: &str) -> (r: Option<String>)
    ensures
        text::opt_view(r) == updated_passkey(passkey@, result@),
        match r {
            Some(updated) => passkey_id_of(updated@) is Some ==> passkey_id_of(updated@)
                == passkey_id_of(passkey@),
            None => true,
        },
{
    let mut passkey = serde_json::from_str::<Passkey>(passkey).ok()?;
    let result = serde_json::from_str::<AuthenticationResult>(result).ok()?;
    passkey.update_credential(&result)?;
    serde_json::to_string(&passkey).ok()
}

} // verus!
