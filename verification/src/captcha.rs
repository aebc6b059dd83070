//! CAPTCHA tokens: a solved challenge is rewarded with a signed token that can
//! be verified once before it expires.
use vstd::prelude::*;
use crate::json;
use crate::json::{Json, JsonObject, JsonView};
use crate::order;
use crate::outside;
use crate::settings;
use crate::text;
use crate::text_laws;
use crate::text_map;
use crate::text_map::TextMap;

verus! {

/// The secret, the lifetime of tokens, and the tokens that wait to be verified.
#[derive(Debug)]
pub struct CaptchaState {
    secret: Vec<u8>,
    token_ttl_seconds: u64,
    issued: TextMap<u64>,
}

/// The signed part of a token.
pub open spec fn token_payload(expiry: Seq<char>, nonce: Seq<char>) -> Seq<char> {
    expiry + "."@ + nonce
}

/// The code that signs a payload.
pub open spec fn payload_code(secret: Seq<u8>, payload: Seq<char>) -> [u8; 32] {
    outside::hmac_sha256_of(secret, vstd::utf8::encode_utf8(payload))
}

/// The token for a nonce that expires at a given time.
pub open spec fn token_of(secret: Seq<u8>, expires_at: u64, nonce: Seq<char>) -> Seq<char> {
    let payload = token_payload(text::decimal(expires_at as nat), nonce);
    payload + "."@ + outside::hex_text(payload_code(secret, payload)@)
}

/// The nonce and the expiry of a token that the secret signed and that has not expired.
pub open spec fn genuine(secret: Seq<u8>, token: Seq<char>, now: u64) -> Option<(Seq<char>, u64)> {
    let parts = text::pieces(token, '.');
    if parts.len() != 3 || parts[1].len() == 0 {
        None
    } else {
        match (text::parsed_nat(parts[0], u64::MAX as nat), outside::hex_bytes(parts[2])) {
            (Some(expires_at), Some(code)) => if expires_at >= now && code == payload_code(
                secret,
                token_payload(parts[0], parts[1]),
            )@ {
                Some((parts[1], expires_at as u64))
            } else {
                None
            },
            _ => None,
        }
    }
}

/// The waiting tokens that have not expired.
pub open spec fn unexpired(issued: Map<Seq<char>, u64>, now: u64) -> Map<Seq<char>, u64> {
    Map::new(
        |nonce: Seq<char>| issued.dom().contains(nonce) && issued[nonce] >= now,
        |nonce: Seq<char>| issued[nonce],
    )
}

/// The end of a token's life.
pub open spec fn expiry_at(now: u64, ttl: u64) -> u64 {
    if now + ttl > u64::MAX {
        u64::MAX
    } else {
        (now + ttl) as u64
    }
}

/// The waiting tokens after one more was issued.
pub open spec fn issued_after(
    issued: Map<Seq<char>, u64>,
    nonce: Seq<char>,
    now: u64,
    ttl: u64,
) -> Map<Seq<char>, u64> {
    unexpired(issued, now).insert(nonce, expiry_at(now, ttl))
}

/// The token is genuine and waits to be verified.
pub open spec fn is_valid(
    secret: Seq<u8>,
    issued: Map<Seq<char>, u64>,
    token: Seq<char>,
    now: u64,
) -> bool {
    match genuine(secret, token, now) {
        Some((nonce, expires_at)) => issued.dom().contains(nonce) && issued[nonce] == expires_at,
        None => false,
    }
}

/// The waiting tokens after a token was shown: a genuine one waits no longer.
pub open spec fn issued_without(
    secret: Seq<u8>,
    issued: Map<Seq<char>, u64>,
    token: Seq<char>,
    now: u64,
) -> Map<Seq<char>, u64> {
    match genuine(secret, token, now) {
        Some((nonce, _)) => issued.remove(nonce),
        None => issued,
    }
}

/// The answer is the word that was asked for.
pub open spec fn is_solution(answer: Option<Seq<char>>) -> bool {
    match answer {
        Some(s) => text::same_ignoring_case(text::trimmed(s), "human"@),
        None => false,
    }
}

/// The content type is that of a browser form.
pub open spec fn is_form(content_type: Option<Seq<char>>) -> bool {
    match content_type {
        Some(s) => text::same_ignoring_case(
            text::trimmed(text::pieces(s, ';')[0]),
            "application/x-www-form-urlencoded"@,
        ),
        None => false,
    }
}

/// Drops the waiting tokens that have expired.
fn drop_expired(issued: TextMap<u64>, now: u64) -> (r: TextMap<u64>)
    requires
        issued.well_formed(),
    ensures
        r.well_formed(),
        r@ == unexpired(issued@, now),
{
    let entries = issued.into_entries();
    let ghost all = entries@;
    let ghost goal = unexpired(issued@, now);
    let mut out: TextMap<u64> = TextMap::new();
    for entry in it: entries.into_iter()
        invariant
            it.seq() == all,
            out.well_formed(),
            order::strictly_sorted(text_map::entry_keys(all)),
            text_map::entries_map(all) == issued@,
            goal == unexpired(issued@, now),
            forall|key: Seq<char>| #[trigger]
                out@.dom().contains(key) ==> goal.dom().contains(key) && out@[key] == goal[key],
            forall|j: int|
                0 <= j < it.index() && goal.dom().contains((#[trigger] all[j]).0@)
                    ==> out@.dom().contains(all[j].0@),
    {
        let ghost n = it.index() as int;
        let (nonce, expires_at) = entry;
        proof {
            text_map::lemma_entry_found(all, n);
        }
        if expires_at >= now {
            out.insert(nonce.as_str(), expires_at);
        }
    }
    proof {
        assert forall|key: Seq<char>| goal.dom().contains(key) implies out@.dom().contains(key) by {
            let keys = text_map::entry_keys(all);
            assert(issued@.dom().contains(key));
            assert(keys.contains(key));
            let j = keys.index_of(key);
            assert(keys[j] == key);
            assert(all[j].0@ == key);
        }
        assert(out@ =~= goal);
    }
    out
}

/// The signature of a payload, in hexadecimal.
pub fn sign(secret: &[u8], payload: &str) -> (r: String)
    ensures
        r@ == outside::hex_text(payload_code(secret@, payload@)@),
{
    let code = outside::hmac_sha256(secret, payload.as_bytes());
    outside::hex_encode(code.as_slice())
}

impl CaptchaState {
    pub closed spec fn well_formed(&self) -> bool {
        self.issued.well_formed()
    }

    /// The secret that signs tokens.
    pub closed spec fn secret(&self) -> Seq<u8> {
        self.secret@
    }

    /// How long a token lives.
    pub closed spec fn ttl(&self) -> u64 {
        self.token_ttl_seconds
    }

    /// The tokens that wait to be verified: their nonces and expiries.
    pub closed spec fn issued(&self) -> Map<Seq<char>, u64> {
        self.issued@
    }

    /// A state with a secret and a lifetime.
    pub fn new(secret: Vec<u8>, token_ttl_seconds: u64) -> (r: CaptchaState)
        ensures
            r.well_formed(),
            r.secret() == secret@,
            r.ttl() == token_ttl_seconds,
            r.issued() == Map::<Seq<char>, u64>::empty(),
    {
        CaptchaState { secret, token_ttl_seconds, issued: TextMap::new() }
    }

    /// The configured state. A blank secret is replaced by a random one; the
    /// lifetime is brought between half a minute and an hour.
    pub fn from_settings(secret: Option<&str>, ttl: Option<&str>) -> (r: CaptchaState)
        ensures
            r.well_formed(),
            settings::solid_setting(text::opt_str_view(secret)) matches Some(configured) ==> r.secret()
                == vstd::utf8::encode_utf8(configured),
            settings::solid_setting(text::opt_str_view(secret)) is None ==> exists|id: Seq<char>|
                outside::is_identifier(id) && r.secret() == vstd::utf8::encode_utf8(
                    #[trigger] outside::hyphenated(id),
                ),
            r.ttl() == settings::clamped(
                settings::number_setting(text::opt_str_view(ttl), u64::MAX as nat, 300) as int,
                30,
                3600,
            ),
            r.issued() == Map::<Seq<char>, u64>::empty(),
    {
        let key = match settings::env_solid(secret) {
            Some(configured) => configured,
            None => outside::random_uuid(),
        };
        let bytes = key.as_str().as_bytes();
        let mut owned: Vec<u8> = Vec::new();
        let mut i: usize = 0;
        while i < bytes.len()
            invariant
                i <= bytes@.len(),
                owned@ == bytes@.take(i as int),
            decreases bytes@.len() - i,
        {
            owned.push(bytes[i]);
            i += 1;
            assert(owned@ =~= bytes@.take(i as int));
        }
        assert(bytes@.take(i as int) =~= bytes@);
        CaptchaState::new(owned, settings::env_u64_within(ttl, 300, 30, 3600))
    }

    /// Issues the token for a nonce at a given time.
    pub fn issue_at(&mut self, now: u64, nonce: &str) -> (r: String)
        requires
            old(self).well_formed(),
        ensures
            final(self).well_formed(),
            final(self).secret() == old(self).secret(),
            final(self).ttl() == old(self).ttl(),
            r@ == token_of(old(self).secret(), expiry_at(now, old(self).ttl()), nonce@),
            final(self).issued() == issued_after(old(self).issued(), nonce@, now, old(self).ttl()),
    {
        let expires_at: u64 = if self.token_ttl_seconds > u64::MAX - now {
            u64::MAX
        } else {
            now + self.token_ttl_seconds
        };
        let mut token = text::u64_text(expires_at);
        token.append(".");
        token.append(nonce);
        let signature = sign(self.secret.as_slice(), token.as_str());
        let mut waiting: TextMap<u64> = TextMap::new();
        std::mem::swap(&mut waiting, &mut self.issued);
        let mut kept = drop_expired(waiting, now);
        kept.insert(nonce, expires_at);
        self.issued = kept;
        token.append(".");
        token.append(signature.as_str());
        token
    }

    /// Issues a token with a random nonce.
    pub fn issue(&mut self) -> (r: String)
        requires
            old(self).well_formed(),
        ensures
            final(self).well_formed(),
            final(self).secret() == old(self).secret(),
            final(self).ttl() == old(self).ttl(),
            exists|now: u64, nonce: Seq<char>|
                outside::is_identifier(nonce) && r@ == token_of(
                    old(self).secret(),
                    expiry_at(now, old(self).ttl()),
                    nonce,
                ) && final(self).issued() == #[trigger] issued_after(
                    old(self).issued(),
                    nonce,
                    now,
                    old(self).ttl(),
                ),
    {
        let nonce = outside::random_id();
        let now = outside::unix_seconds();
        self.issue_at(now, nonce.as_str())
    }

    /// Verifies a token at a given time; a genuine one is used up by it.
    pub fn verify_once_at(&mut self, token: &str, now: u64) -> (r: bool)
        requires
            old(self).well_formed(),
        ensures
            final(self).well_formed(),
            final(self).secret() == old(self).secret(),
            final(self).ttl() == old(self).ttl(),
            r == is_valid(old(self).secret(), old(self).issued(), token@, now),
            final(self).issued() == issued_without(
                old(self).secret(),
                old(self).issued(),
                token@,
                now,
            ),
    {
        let parts = text::split_on(token, '.');
        assert(text::views(parts@).len() == parts@.len());
        if parts.len() != 3 {
            return false;
        }
        assert forall|i: int| 0 <= i < 3 implies text::views(parts@)[i] == (#[trigger] parts@[i])@ by {}
        let expires_at = match text::parse_nat(parts[0].as_str(), u64::MAX) {
            Some(n) => n,
            None => {
                return false;
            },
        };
        let nonce = parts[1].as_str();
        if expires_at < now || nonce.is_empty() {
            return false;
        }
        let mut payload = parts[0].clone();
        payload.append(".");
        payload.append(nonce);
        let code = match outside::hex_decode(parts[2].as_str()) {
            Some(bytes) => bytes,
            None => {
                return false;
            },
        };
        if !outside::hmac_sha256_accepts(
            self.secret.as_slice(),
            payload.as_str().as_bytes(),
            code.as_slice(),
        ) {
            return false;
        }
        match self.issued.remove(nonce) {
            Some(known) => known == expires_at,
            None => false,
        }
    }

    /// Verifies a token; a genuine one is used up by it.
    pub fn verify_once(&mut self, token: &str) -> (r: bool)
        requires
            old(self).well_formed(),
        ensures
            final(self).well_formed(),
            final(self).secret() == old(self).secret(),
            final(self).ttl() == old(self).ttl(),
            exists|now: u64|
                r == is_valid(old(self).secret(), old(self).issued(), token@, now)
                    && final(self).issued() == #[trigger] issued_without(
                    old(self).secret(),
                    old(self).issued(),
                    token@,
                    now,
                ),
    {
        let now = outside::unix_seconds();
        self.verify_once_at(token, now)
    }
}

/// Whether an answer solves the challenge.
pub fn solved(answer: Option<&str>) -> (r: bool)
    ensures
        r == is_solution(text::opt_str_view(answer)),
{
    match answer {
        Some(s) => {
            let solid = text::trim(s);
            text::eq_ignoring_case(solid.as_str(), "human")
        },
        None => false,
    }
}

/// Whether a content type is that of a browser form.
pub fn is_form_content(content_type: Option<&str>) -> (r: bool)
    ensures
        r == is_form(text::opt_str_view(content_type)),
{
    match content_type {
        Some(s) => {
            let parts = text::split_on(s, ';');
            assert(text::views(parts@)[0] == parts@[0]@);
            let kind = text::trim(parts[0].as_str());
            text::eq_ignoring_case(kind.as_str(), "application/x-www-form-urlencoded")
        },
        None => false,
    }
}

/// The answer to a solution, with the token where one was issued.
pub open spec fn solve_answer(token: Option<Seq<char>>) -> JsonView {
    JsonView::Object(
        map!["success"@ => JsonView::Bool(token is Some), "token"@ => json::text_or_null(token)],
    )
}

/// Takes a solution at a given time: a right one is rewarded with a token for
/// the nonce, a wrong one changes nothing.
pub fn solve_at(state: &mut CaptchaState, answer: Option<&str>, now: u64, nonce: &str) -> (r: Json)
    requires
        old(state).well_formed(),
    ensures
        final(state).well_formed(),
        final(state).secret() == old(state).secret(),
        final(state).ttl() == old(state).ttl(),
        r@ == solve_answer(
            if is_solution(text::opt_str_view(answer)) {
                Some(token_of(old(state).secret(), expiry_at(now, old(state).ttl()), nonce@))
            } else {
                None
            },
        ),
        final(state).issued() == (if is_solution(text::opt_str_view(answer)) {
            issued_after(old(state).issued(), nonce@, now, old(state).ttl())
        } else {
            old(state).issued()
        }),
{
    let token = if solved(answer) {
        Some(state.issue_at(now, nonce))
    } else {
        None
    };
    let mut body = JsonObject::new();
    body.put("success", Json::Bool(token.is_some()));
    body.put("token", json::optional_text(text::borrowed(&token)));
    Json::Object(body)
}

/// Takes a solution: a right one is rewarded with a token.
pub fn solve(state: &mut CaptchaState, answer: Option<&str>) -> (r: Json)
    requires
        old(state).well_formed(),
    ensures
        final(state).well_formed(),
        final(state).secret() == old(state).secret(),
        final(state).ttl() == old(state).ttl(),
        !is_solution(text::opt_str_view(answer)) ==> r@ == solve_answer(None)
            && final(state).issued() == old(state).issued(),
        is_solution(text::opt_str_view(answer)) ==> exists|now: u64, nonce: Seq<char>|
            outside::is_identifier(nonce) && r@ == solve_answer(
                Some(token_of(old(state).secret(), expiry_at(now, old(state).ttl()), nonce)),
            ) && final(state).issued() == #[trigger] issued_after(
                old(state).issued(),
                nonce,
                now,
                old(state).ttl(),
            ),
{
    let nonce = outside::random_id();
    let now = outside::unix_seconds();
    solve_at(state, answer, now, nonce.as_str())
}

/// The answer to a request to verify a token; a request without one fails.
pub fn verify(state: &mut CaptchaState, token: Option<&str>, now: u64) -> (r: Json)
    requires
        old(state).well_formed(),
    ensures
        final(state).well_formed(),
        final(state).secret() == old(state).secret(),
        final(state).ttl() == old(state).ttl(),
        r@ == JsonView::Object(
            map![
                "success"@ => JsonView::Bool(
                    token is Some && is_valid(
                        old(state).secret(),
                        old(state).issued(),
                        token->0@,
                        now,
                    ),
                ),
            ],
        ),
        final(state).issued() == (if token is Some {
            issued_without(old(state).secret(), old(state).issued(), token->0@, now)
        } else {
            old(state).issued()
        }),
{
    let success = match token {
        Some(shown) => state.verify_once_at(shown, now),
        None => false,
    };
    let mut body = JsonObject::new();
    body.put("success", Json::Bool(success));
    Json::Object(body)
}

/// A token falls apart into its expiry, its nonce and its signature.
pub proof fn lemma_token_pieces(secret: Seq<u8>, expires_at: u64, nonce: Seq<char>)
    requires
        !nonce.contains('.'),
    ensures
        text::pieces(token_of(secret, expires_at, nonce), '.') == seq![
            text::decimal(expires_at as nat),
            nonce,
            outside::hex_text(
                payload_code(
                    secret,
                    token_payload(text::decimal(expires_at as nat), nonce),
                )@,
            ),
        ],
{
    let expiry = text::decimal(expires_at as nat);
    let code = payload_code(secret, token_payload(expiry, nonce))@;
    let signature = outside::hex_text(code);
    text_laws::lemma_decimal_digits(expires_at as nat);
    outside::lemma_hex_text_digits(code);
    assert(!expiry.contains('.'));
    assert(!signature.contains('.'));
    let parts = seq![expiry, nonce, signature];
    reveal_strlit(".");
    assert("."@ =~= seq!['.']);
    assert(parts.drop_last() =~= seq![expiry, nonce]);
    assert(parts.drop_last().drop_last() =~= seq![expiry]);
    assert(text::joined(seq![expiry], seq!['.']) == expiry);
    assert(text::joined(parts.drop_last(), seq!['.']) == expiry + seq!['.'] + nonce);
    text_laws::law_split_of_join(parts, '.');
    assert(token_of(secret, expires_at, nonce) =~= text::joined(parts, seq!['.']));
}

/// A token that was issued is genuine until it expires.
pub proof fn law_issued_tokens_are_genuine(
    secret: Seq<u8>,
    expires_at: u64,
    nonce: Seq<char>,
    now: u64,
)
    requires
        nonce.len() > 0,
        !nonce.contains('.'),
        now <= expires_at,
    ensures
        genuine(secret, token_of(secret, expires_at, nonce), now) == Some((nonce, expires_at)),
{
    let expiry = text::decimal(expires_at as nat);
    let code = payload_code(secret, token_payload(expiry, nonce))@;
    let parts = text::pieces(token_of(secret, expires_at, nonce), '.');
    assert(parts == seq![expiry, nonce, outside::hex_text(code)]) by {
        lemma_token_pieces(secret, expires_at, nonce);
    }
    assert(text::parsed_nat(parts[0], u64::MAX as nat) == Some(expires_at as nat)) by {
        text_laws::law_decimal_round_trip(expires_at as nat, u64::MAX as nat);
    }
    assert(outside::hex_bytes(parts[2]) == Some(code)) by {
        outside::law_hex_round_trip(code);
    }
}

/// A token verifies exactly once: right after it was issued it does, and then
/// never again, at whatever time.
pub proof fn law_token_verifies_exactly_once(
    secret: Seq<u8>,
    issued: Map<Seq<char>, u64>,
    ttl: u64,
    nonce: Seq<char>,
    now: u64,
    later: u64,
    again: u64,
)
    requires
        nonce.len() > 0,
        !nonce.contains('.'),
        later <= expiry_at(now, ttl),
    ensures
        ({
            let token = token_of(secret, expiry_at(now, ttl), nonce);
            let waiting = issued_after(issued, nonce, now, ttl);
            let used = issued_without(secret, waiting, token, later);
            &&& is_valid(secret, waiting, token, later)
            &&& !is_valid(secret, used, token, again)
        }),
{
    let expires_at = expiry_at(now, ttl);
    law_issued_tokens_are_genuine(secret, expires_at, nonce, later);
    if again <= expires_at {
        law_issued_tokens_are_genuine(secret, expires_at, nonce, again);
    } else {
        lemma_token_pieces(secret, expires_at, nonce);
        text_laws::law_decimal_round_trip(expires_at as nat, u64::MAX as nat);
    }
}

/// A token with anything behind it is refused, and the token itself is not
/// used up by it.
pub proof fn law_extended_tokens_are_refused(
    secret: Seq<u8>,
    issued: Map<Seq<char>, u64>,
    expires_at: u64,
    nonce: Seq<char>,
    extra: char,
    now: u64,
)
    requires
        !nonce.contains('.'),
    ensures
        ({
            let tampered = token_of(secret, expires_at, nonce).push(extra);
            &&& !is_valid(secret, issued, tampered, now)
            &&& issued_without(secret, issued, tampered, now) == issued
        }),
{
    let token = token_of(secret, expires_at, nonce);
    let tampered = token.push(extra);
    lemma_token_pieces(secret, expires_at, nonce);
    let parts = text::pieces(token, '.');
    assert(tampered.drop_last() =~= token);
    let after = text::pieces(tampered, '.');
    outside::lemma_hex_text_digits(
        payload_code(secret, token_payload(text::decimal(expires_at as nat), nonce))@,
    );
    assert(parts.last().len() == 64);
    if extra == '.' {
        assert(after.len() == 4);
    } else {
        assert(after[2] == parts[2].push(extra));
        assert(after[2].len() == 65);
    }
}

/// A text that is not made of three parts is no token.
pub proof fn law_arbitrary_texts_are_refused(
    secret: Seq<u8>,
    issued: Map<Seq<char>, u64>,
    token: Seq<char>,
    now: u64,
)
    requires
        text::pieces(token, '.').len() != 3,
    ensures
        !is_valid(secret, issued, token, now),
        issued_without(secret, issued, token, now) == issued,
{
}

} // verus!
