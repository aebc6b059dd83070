//! Shared secrets: signed bodies, API keys and signed tokens.
use vstd::prelude::*;
use crate::headers;
use crate::headers::Headers;
use crate::json;
use crate::json::{Json, JsonView};
use crate::outside;
use crate::text;
use crate::text_laws;

verus! {

/// Whether two byte strings are the same, in a time that depends on their lengths alone.
pub fn constant_time_eq(a: &[u8], b: &[u8]) -> (r: bool)
    ensures
        r == (a@ == b@),
{
    if a.len() != b.len() {
        return false;
    }
    let mut difference: u8 = 0;
    let mut i: usize = 0;
    while i < a.len()
        invariant
            i <= a@.len(),
            a@.len() == b@.len(),
            difference == 0 <==> (forall|j: int| 0 <= j < i ==> a@[j] == b@[j]),
        decreases a@.len() - i,
    {
        let x = a[i];
        let y = b[i];
        let before = difference;
        assert((before | (x ^ y)) == 0 <==> before == 0 && x == y) by (bit_vector);
        difference = difference | (x ^ y);
        i += 1;
    }
    assert(difference == 0 ==> a@ =~= b@);
    difference == 0
}

/// Two texts are the same exactly when their bytes are.
pub proof fn lemma_same_bytes(a: Seq<char>, b: Seq<char>)
    ensures
        (vstd::utf8::encode_utf8(a) == vstd::utf8::encode_utf8(b)) == (a == b),
{
    vstd::utf8::encode_utf8_decode_utf8(a);
    vstd::utf8::encode_utf8_decode_utf8(b);
}

/// Whether two texts are the same, in a time that depends on their lengths alone.
pub fn constant_time_text_eq(a: &str, b: &str) -> (r: bool)
    ensures
        r == (a@ == b@),
{
    proof {
        lemma_same_bytes(a@, b@);
    }
    constant_time_eq(a.as_bytes(), b.as_bytes())
}

/// Whether a signature is the hexadecimal HMAC-SHA256 of the body under the secret.
pub fn verify_hmac_sha256(secret: &str, body: &[u8], signature_hex: &str) -> (r: bool)
    ensures
        r == (signature_hex@ == outside::hex_text(
            outside::hmac_sha256_of(vstd::utf8::encode_utf8(secret@), body@)@,
        )),
{
    let code = outside::hmac_sha256(secret.as_bytes(), body);
    let expected = outside::hex_encode(code.as_slice());
    constant_time_text_eq(expected.as_str(), signature_hex)
}

/// What a token signs: its first two parts with the full stop between them.
pub open spec fn signing_input(header: Seq<char>, payload: Seq<char>) -> Seq<char> {
    header + "."@ + payload
}

/// The signature that a secret gives the first two parts of a token.
pub open spec fn jwt_signature(
    header: Seq<char>,
    payload: Seq<char>,
    secret: Seq<char>,
) -> Seq<char> {
    outside::base64url_of(
        outside::hmac_sha256_of(
            vstd::utf8::encode_utf8(secret),
            vstd::utf8::encode_utf8(signing_input(header, payload)),
        )@,
    )
}

/// The claims of a token of three parts that the secret signed.
pub open spec fn signed_claims(token: Seq<char>, secret: Seq<char>) -> Option<JsonView> {
    let parts = text::pieces(token, '.');
    if parts.len() == 3 && parts[2] == jwt_signature(parts[0], parts[1], secret) {
        match outside::base64url_bytes(parts[1]) {
            Some(bytes) => outside::json_text(bytes),
            None => None,
        }
    } else {
        None
    }
}

/// The moment from which the claims count no more.
pub open spec fn expiry_of(claims: JsonView) -> Option<int> {
    json::i64_of(json::member(claims, "exp"@))
}

/// The claims of a signed token that has not expired.
pub open spec fn claims_at(token: Seq<char>, secret: Seq<char>, now: int) -> Option<JsonView> {
    match signed_claims(token, secret) {
        Some(claims) => match expiry_of(claims) {
            Some(expiry) if now >= expiry => None,
            _ => Some(claims),
        },
        None => None,
    }
}

/// The meaning of optional claims.
pub open spec fn claims_view(claims: Option<Json>) -> Option<JsonView> {
    match claims {
        Some(value) => Some(value@),
        None => None,
    }
}

/// The claims of a token that the secret signed, whether it has expired or not.
fn verified_claims(token: &str, secret: &str) -> (r: Option<Json>)
    ensures
        claims_view(r) == signed_claims(token@, secret@),
{
    let parts = text::split_on(token, '.');
    assert(text::views(parts@).len() == parts@.len());
    if parts.len() != 3 {
        return None;
    }
    assert forall|i: int| 0 <= i < 3 implies text::views(parts@)[i] == (#[trigger] parts@[i])@ by {}
    let mut input = parts[0].clone();
    input.append(".");
    input.append(parts[1].as_str());
    let code = outside::hmac_sha256(secret.as_bytes(), input.as_str().as_bytes());
    let expected = outside::base64url_encode(code.as_slice());
    if !constant_time_text_eq(expected.as_str(), parts[2].as_str()) {
        return None;
    }
    match outside::base64url_decode(parts[1].as_str()) {
        Some(bytes) => outside::parse_json(bytes.as_slice()),
        None => None,
    }
}

/// The claims of a token that the secret signed and that has not expired by a given time.
pub fn decode_hs256_jwt_at(token: &str, secret: &str, now: i64) -> (r: Option<Json>)
    ensures
        claims_view(r) == claims_at(token@, secret@, now as int),
{
    match verified_claims(token, secret) {
        Some(claims) => {
            let expired = match claims.get("exp") {
                Some(value) => match value.as_i64() {
                    Some(expiry) => now >= expiry,
                    None => false,
                },
                None => false,
            };
            if expired {
                None
            } else {
                Some(claims)
            }
        },
        None => None,
    }
}

/// The claims of a token that the secret signed and that has not expired.
pub fn decode_hs256_jwt(token: &str, secret: &str) -> (r: Option<Json>)
    ensures
        exists|now: i64| claims_view(r) == #[trigger] claims_at(token@, secret@, now as int),
{
    let now = outside::now_seconds();
    decode_hs256_jwt_at(token, secret, now)
}

/// Whether the secret signed the token and it has not expired by a given time.
pub fn verify_hs256_jwt_at(token: &str, secret: &str, now: i64) -> (r: bool)
    ensures
        r == (claims_at(token@, secret@, now as int) is Some),
{
    decode_hs256_jwt_at(token, secret, now).is_some()
}

/// Whether the secret signed the token and it has not expired.
pub fn verify_hs256_jwt(token: &str, secret: &str) -> (r: bool)
    ensures
        exists|now: i64| r == (#[trigger] claims_at(token@, secret@, now as int) is Some),
{
    let now = outside::now_seconds();
    verify_hs256_jwt_at(token, secret, now)
}

/// A setting that holds something.
pub open spec fn configured(value: Option<Seq<char>>) -> Option<Seq<char>> {
    match value {
        Some(s) if s.len() > 0 => Some(s),
        _ => None,
    }
}

/// The text of a header, or nothing.
pub open spec fn header_or_empty(
    entries: Seq<(Seq<char>, Option<Seq<char>>)>,
    name: Seq<char>,
) -> Seq<char> {
    match headers::header_text(entries, name) {
        Some(s) => s,
        None => Seq::empty(),
    }
}

/// The token of an `Authorization: Bearer` header.
pub open spec fn bearer_of(entries: Seq<(Seq<char>, Option<Seq<char>>)>) -> Option<Seq<char>> {
    match headers::header_text(entries, "authorization"@) {
        Some(value) => text::after_prefix(value, "Bearer "@),
        None => None,
    }
}

/// The request shows the API key, or a bearer token that the JWT secret signed;
/// a secret that is not configured opens nothing.
pub open spec fn authorized(
    entries: Seq<(Seq<char>, Option<Seq<char>>)>,
    api_key: Option<Seq<char>>,
    jwt_secret: Option<Seq<char>>,
    now: int,
) -> bool {
    ||| configured(api_key) == Some(header_or_empty(entries, "x-api-key"@))
    ||| match configured(jwt_secret) {
        Some(secret) => match bearer_of(entries) {
            Some(token) => claims_at(token, secret, now) is Some,
            None => claims_at(Seq::empty(), secret, now) is Some,
        },
        None => false,
    }
}

/// The token of an `Authorization: Bearer` header.
pub fn bearer_token(headers: &Headers) -> (r: Option<String>)
    ensures
        text::opt_view(r) == bearer_of(headers@),
{
    match headers.get("authorization") {
        Some(value) => text::strip_prefix(value, "Bearer "),
        None => None,
    }
}

/// Whether a request may use the routes behind these secrets at a given time.
pub fn is_authorized_at(
    headers: &Headers,
    api_key: Option<&str>,
    jwt_secret: Option<&str>,
    now: i64,
) -> (r: bool)
    ensures
        r == authorized(
            headers@,
            text::opt_str_view(api_key),
            text::opt_str_view(jwt_secret),
            now as int,
        ),
{
    if let Some(expected) = api_key {
        if !expected.is_empty() {
            let provided = headers.get("x-api-key").unwrap_or("");
            proof {
                reveal_strlit("");
                assert(""@ =~= Seq::<char>::empty());
            }
            if constant_time_text_eq(expected, provided) {
                return true;
            }
        }
    }
    if let Some(secret) = jwt_secret {
        if !secret.is_empty() {
            let token = match bearer_token(headers) {
                Some(token) => token,
                None => String::new(),
            };
            return verify_hs256_jwt_at(token.as_str(), secret, now);
        }
    }
    false
}

/// Whether a request may use the routes behind these secrets.
pub fn is_authorized(headers: &Headers, api_key: Option<&str>, jwt_secret: Option<&str>) -> (r: bool)
    ensures
        exists|now: i64|
            r == #[trigger] authorized(
                headers@,
                text::opt_str_view(api_key),
                text::opt_str_view(jwt_secret),
                now as int,
            ),
{
    let now = outside::now_seconds();
    is_authorized_at(headers, api_key, jwt_secret, now)
}

/// Without a configured secret every request is refused.
pub proof fn law_no_secret_opens_nothing(
    entries: Seq<(Seq<char>, Option<Seq<char>>)>,
    api_key: Option<Seq<char>>,
    jwt_secret: Option<Seq<char>>,
    now: int,
)
    requires
        api_key is None || api_key->0.len() == 0,
        jwt_secret is None || jwt_secret->0.len() == 0,
    ensures
        !authorized(entries, api_key, jwt_secret, now),
{
}

/// A request without credentials is refused, whatever is configured: an empty
/// API key and an empty token match nothing.
pub proof fn law_no_credentials_no_access(
    entries: Seq<(Seq<char>, Option<Seq<char>>)>,
    api_key: Option<Seq<char>>,
    jwt_secret: Option<Seq<char>>,
    now: int,
)
    requires
        header_or_empty(entries, "x-api-key"@).len() == 0,
        bearer_of(entries) is None || bearer_of(entries)->0.len() == 0,
    ensures
        !authorized(entries, api_key, jwt_secret, now),
{
    if bearer_of(entries) is Some {
        assert(bearer_of(entries)->0 =~= Seq::<char>::empty());
    }
    text_laws::lemma_single_piece(Seq::<char>::empty(), '.');
}

/// A token that writes out claims and that the secret signed yields those claims
/// until it expires.
pub proof fn law_signed_token_is_accepted(
    header: Seq<char>,
    bytes: Seq<u8>,
    claims: JsonView,
    secret: Seq<char>,
    now: int,
)
    requires
        !header.contains('.'),
        outside::json_text(bytes) == Some(claims),
        expiry_of(claims) matches Some(expiry) ==> now < expiry,
    ensures
        claims_at(
            signing_input(header, outside::base64url_of(bytes)) + "."@ + jwt_signature(
                header,
                outside::base64url_of(bytes),
                secret,
            ),
            secret,
            now,
        ) == Some(claims),
{
    let payload = outside::base64url_of(bytes);
    outside::law_base64url_round_trip(bytes);
    outside::lemma_base64url_alphabet(bytes);
    outside::lemma_base64url_alphabet(
        outside::hmac_sha256_of(
            vstd::utf8::encode_utf8(secret),
            vstd::utf8::encode_utf8(signing_input(header, payload)),
        )@,
    );
    let signature = jwt_signature(header, payload, secret);
    let parts = seq![header, payload, signature];
    reveal_strlit(".");
    assert("."@ =~= seq!['.']);
    assert(parts.drop_last() =~= seq![header, payload]);
    assert(parts.drop_last().drop_last() =~= seq![header]);
    assert(text::joined(seq![header], seq!['.']) == header);
    assert(text::joined(parts.drop_last(), seq!['.']) == header + seq!['.'] + payload);
    text_laws::law_split_of_join(parts, '.');
}

/// A token under another signature yields nothing.
pub proof fn law_wrong_signature_is_refused(token: Seq<char>, secret: Seq<char>, now: int)
    requires
        text::pieces(token, '.').len() == 3 ==> text::pieces(token, '.')[2] != jwt_signature(
            text::pieces(token, '.')[0],
            text::pieces(token, '.')[1],
            secret,
        ),
    ensures
        claims_at(token, secret, now) is None,
{
}

} // verus!
