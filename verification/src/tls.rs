//! TLS client fingerprints: their canonical forms, and the signed attestation
//! that binds a fingerprint to one request.
use vstd::prelude::*;
use crate::auth;
use crate::outside;
use crate::text;
use crate::text_laws;

verus! {

/// A JA3 value, a JA4 value, and the collector that observed them.
#[derive(Debug)]
pub struct TlsFingerprint {
    pub ja3: Option<String>,
    pub ja4: Option<String>,
    pub source: String,
}

/// The texts of a fingerprint.
pub ghost struct FingerprintView {
    pub ja3: Option<Seq<char>>,
    pub ja4: Option<Seq<char>>,
    pub source: Seq<char>,
}

impl View for TlsFingerprint {
    type V = FingerprintView;

    open spec fn view(&self) -> FingerprintView {
        FingerprintView {
            ja3: text::opt_view(self.ja3),
            ja4: text::opt_view(self.ja4),
            source: self.source@,
        }
    }
}

/// The live request that an attestation is checked against.
pub struct TlsAttestationContext<'a> {
    pub now: i64,
    pub client_ip: &'a str,
    pub method: &'a str,
    pub path: &'a str,
    pub fingerprint: &'a TlsFingerprint,
}

/// What an attestation binds a fingerprint to.
pub ghost struct RequestView {
    pub client_ip: Seq<char>,
    pub method: Seq<char>,
    pub path: Seq<char>,
    pub fingerprint: FingerprintView,
}

impl<'a> TlsAttestationContext<'a> {
    /// The request without the time at which it is looked at.
    pub open spec fn request(self) -> RequestView {
        RequestView {
            client_ip: self.client_ip@,
            method: self.method@,
            path: self.path@,
            fingerprint: self.fingerprint@,
        }
    }
}

/// The shortest key, in bytes, that signs or verifies an attestation.
pub const MIN_KEY_BYTES: usize = 32;

/// The value trimmed and in lower case.
pub open spec fn folded(value: Seq<char>) -> Seq<char> {
    text::lower(text::trimmed(value))
}

pub open spec fn is_ja3(s: Seq<char>) -> bool {
    s.len() == 32 && text::all_chars(s, |c: char| text::is_hex_digit(c))
}

pub open spec fn is_ja4(s: Seq<char>) -> bool {
    let sections = text::pieces(s, '_');
    &&& sections.len() == 3
    &&& sections[0].len() == 10
    &&& text::all_chars(sections[0], |c: char| text::is_lower(c) || text::is_digit(c))
    &&& sections[1].len() == 12
    &&& sections[2].len() == 12
    &&& text::all_chars(sections[1], |c: char| text::is_hex_digit(c))
    &&& text::all_chars(sections[2], |c: char| text::is_hex_digit(c))
}

pub open spec fn is_tls_source(s: Seq<char>) -> bool {
    0 < s.len() <= 32 && text::all_chars(
        s,
        |c: char| text::is_alphanumeric(c) || c == '_' || c == '-',
    )
}

/// The canonical JA3 value that a text holds.
pub open spec fn ja3_of(value: Option<Seq<char>>) -> Option<Seq<char>> {
    match value {
        Some(raw) if is_ja3(folded(raw)) => Some(folded(raw)),
        _ => None,
    }
}

/// The canonical JA4 value that a text holds.
pub open spec fn ja4_of(value: Option<Seq<char>>) -> Option<Seq<char>> {
    match value {
        Some(raw) if is_ja4(folded(raw)) => Some(folded(raw)),
        _ => None,
    }
}

/// The canonical collector name that a text holds.
pub open spec fn tls_source_of(value: Option<Seq<char>>) -> Option<Seq<char>> {
    match value {
        Some(raw) if is_tls_source(folded(raw)) => Some(folded(raw)),
        _ => None,
    }
}

/// The fingerprint in canonical form, if its source is one and a value is left.
pub open spec fn canonical(fingerprint: FingerprintView) -> Option<FingerprintView> {
    let ja3 = ja3_of(fingerprint.ja3);
    let ja4 = ja4_of(fingerprint.ja4);
    match tls_source_of(Some(fingerprint.source)) {
        Some(source) if ja3 is Some || ja4 is Some => Some(FingerprintView { ja3, ja4, source }),
        _ => None,
    }
}

/// The text, or nothing.
pub open spec fn or_empty(value: Option<Seq<char>>) -> Seq<char> {
    match value {
        Some(s) => s,
        None => Seq::empty(),
    }
}

/// The fields of the signed message, in order.
pub open spec fn attestation_fields(issued_at: int, request: RequestView) -> Seq<Seq<char>> {
    seq![
        "v1"@,
        text::decimal_int(issued_at),
        text::lower(text::trimmed(request.client_ip)),
        text::upper(text::trimmed(request.method)),
        request.path,
        or_empty(request.fingerprint.ja3),
        or_empty(request.fingerprint.ja4),
        request.fingerprint.source,
    ]
}

/// A field that cannot be mistaken for two.
pub open spec fn is_plain_field(field: Seq<char>) -> bool {
    !field.contains('\n') && !field.contains('\r') && !field.contains('\0')
}

pub open spec fn all_plain(fields: Seq<Seq<char>>) -> bool {
    forall|i: int| 0 <= i < fields.len() ==> is_plain_field(#[trigger] fields[i])
}

/// The signed message: the fields on lines of their own, if each fits on one.
pub open spec fn attestation_message(issued_at: int, request: RequestView) -> Option<Seq<char>> {
    let fields = attestation_fields(issued_at, request);
    if all_plain(fields) {
        Some(text::joined(fields, "\n"@))
    } else {
        None
    }
}

/// The same request with its fingerprint in canonical form.
pub open spec fn with_canonical(request: RequestView) -> Option<RequestView> {
    match canonical(request.fingerprint) {
        Some(fingerprint) => Some(RequestView { fingerprint, ..request }),
        None => None,
    }
}

/// The authentication code, in hexadecimal, that a key gives a request.
pub open spec fn attestation_code(key: Seq<char>, issued_at: int, request: RequestView) -> Option<
    Seq<char>,
> {
    match with_canonical(request) {
        Some(bound) if text::byte_len(key) >= MIN_KEY_BYTES => match attestation_message(
            issued_at,
            bound,
        ) {
            Some(message) => Some(
                outside::hex_text(
                    outside::hmac_sha256_of(
                        vstd::utf8::encode_utf8(key),
                        vstd::utf8::encode_utf8(message),
                    )@,
                ),
            ),
            None => None,
        },
        _ => None,
    }
}

/// The attestation token that a key gives a request.
pub open spec fn attestation_token(key: Seq<char>, issued_at: int, request: RequestView) -> Option<
    Seq<char>,
> {
    match attestation_code(key, issued_at, request) {
        Some(code) => Some("v1:"@ + text::decimal_int(issued_at) + ":"@ + code),
        None => None,
    }
}

/// The time and the code that a token carries, if it has the shape of one.
pub open spec fn token_parts(token: Seq<char>) -> Option<(int, Seq<char>)> {
    let parts = text::pieces(folded(token), ':');
    if parts.len() == 3 && parts[0] == "v1"@ && parts[2].len() == 64 && text::all_chars(
        parts[2],
        |c: char| text::is_hex_digit(c),
    ) {
        match text::parsed_i64(parts[1]) {
            Some(issued_at) => Some((issued_at, parts[2])),
            None => None,
        }
    } else {
        None
    }
}

/// How far two moments lie apart.
pub open spec fn distance(a: int, b: int) -> int {
    if a <= b {
        b - a
    } else {
        a - b
    }
}

/// One of the keys gives the request this code.
pub open spec fn some_key_gives(
    keys: Seq<Seq<char>>,
    issued_at: int,
    request: RequestView,
    code: Seq<char>,
) -> bool {
    exists|i: int|
        0 <= i < keys.len() && #[trigger] attestation_code(keys[i], issued_at, request) == Some(code)
}

/// The token attests the request under one of the keys, and is recent enough.
pub open spec fn attests(
    token: Option<Seq<char>>,
    keys: Seq<Seq<char>>,
    max_age_seconds: int,
    now: int,
    request: RequestView,
) -> bool {
    match token {
        Some(raw) => match token_parts(raw) {
            Some((issued_at, code)) => {
                &&& max_age_seconds > 0
                &&& distance(now, issued_at) <= max_age_seconds
                &&& some_key_gives(keys, issued_at, request, code)
            },
            None => false,
        },
        None => false,
    }
}

fn fold(value: &str) -> (r: String)
    ensures
        r@ == folded(value@),
{
    let solid = text::trim(value);
    text::to_lower(solid.as_str())
}

/// Whether every character is a hexadecimal digit.
pub fn all_hex(s: &str) -> (r: bool)
    ensures
        r == text::all_chars(s@, |c: char| text::is_hex_digit(c)),
{
    let chars = text::chars_of(s);
    let mut i: usize = 0;
    while i < chars.len()
        invariant
            i <= chars@.len(),
            chars@ == s@,
            forall|j: int| 0 <= j < i ==> text::is_hex_digit(#[trigger] s@[j]),
        decreases chars@.len() - i,
    {
        let c = chars[i];
        if !(('0' <= c && c <= '9') || ('a' <= c && c <= 'f') || ('A' <= c && c <= 'F')) {
            return false;
        }
        i += 1;
    }
    true
}

fn all_lower_or_digit(s: &str) -> (r: bool)
    ensures
        r == text::all_chars(s@, |c: char| text::is_lower(c) || text::is_digit(c)),
{
    let chars = text::chars_of(s);
    let mut i: usize = 0;
    while i < chars.len()
        invariant
            i <= chars@.len(),
            chars@ == s@,
            forall|j: int|
                0 <= j < i ==> text::is_lower(#[trigger] s@[j]) || text::is_digit(s@[j]),
        decreases chars@.len() - i,
    {
        let c = chars[i];
        if !(('0' <= c && c <= '9') || ('a' <= c && c <= 'z')) {
            return false;
        }
        i += 1;
    }
    true
}

fn all_source_chars(s: &str) -> (r: bool)
    ensures
        r == text::all_chars(s@, |c: char| text::is_alphanumeric(c) || c == '_' || c == '-'),
{
    let chars = text::chars_of(s);
    let mut i: usize = 0;
    while i < chars.len()
        invariant
            i <= chars@.len(),
            chars@ == s@,
            forall|j: int|
                0 <= j < i ==> text::is_alphanumeric(#[trigger] s@[j]) || s@[j] == '_' || s@[j] == '-',
        decreases chars@.len() - i,
    {
        let c = chars[i];
        if !(('0' <= c && c <= '9') || ('a' <= c && c <= 'z') || ('A' <= c && c <= 'Z') || c == '_'
            || c == '-') {
            return false;
        }
        i += 1;
    }
    true
}

/// The number of characters of a text.
pub fn char_count(s: &str) -> (r: usize)
    ensures
        r == s@.len(),
{
    let chars = text::chars_of(s);
    chars.len()
}

/// The canonical JA3 value: 32 hexadecimal digits in lower case.
pub fn normalize_ja3(value: Option<&str>) -> (r: Option<String>)
    ensures
        text::opt_view(r) == ja3_of(text::opt_str_view(value)),
{
    match value {
        Some(raw) => {
            let candidate = fold(raw);
            if char_count(candidate.as_str()) == 32 && all_hex(candidate.as_str()) {
                Some(candidate)
            } else {
                None
            }
        },
        None => None,
    }
}

/// The canonical JA4 value: ten letters or digits and twice twelve hexadecimal digits.
pub fn normalize_ja4(value: Option<&str>) -> (r: Option<String>)
    ensures
        text::opt_view(r) == ja4_of(text::opt_str_view(value)),
{
    match value {
        Some(raw) => {
            let candidate = fold(raw);
            let sections = text::split_on(candidate.as_str(), '_');
            proof {
                assert(text::views(sections@).len() == sections@.len());
                assert forall|i: int| 0 <= i < sections@.len() implies text::views(sections@)[i]
                    == (#[trigger] sections@[i])@ by {}
            }
            if sections.len() == 3 && char_count(sections[0].as_str()) == 10 && all_lower_or_digit(
                sections[0].as_str(),
            ) && char_count(sections[1].as_str()) == 12 && char_count(sections[2].as_str()) == 12
                && all_hex(sections[1].as_str()) && all_hex(sections[2].as_str()) {
                Some(candidate)
            } else {
                None
            }
        },
        None => None,
    }
}

/// The canonical collector name: up to 32 letters, digits, underscores and hyphens.
pub fn normalize_tls_source(value: Option<&str>) -> (r: Option<String>)
    ensures
        text::opt_view(r) == tls_source_of(text::opt_str_view(value)),
{
    match value {
        Some(raw) => {
            let candidate = fold(raw);
            let count = char_count(candidate.as_str());
            if count > 0 && count <= 32 && all_source_chars(candidate.as_str()) {
                Some(candidate)
            } else {
                None
            }
        },
        None => None,
    }
}

fn copy_or_empty(value: &Option<String>) -> (r: String)
    ensures
        r@ == or_empty(text::opt_view(*value)),
{
    match value {
        Some(inner) => inner.clone(),
        None => String::new(),
    }
}

fn plain_field(field: &str) -> (r: bool)
    ensures
        r == is_plain_field(field@),
{
    !text::has_char(field, '\n') && !text::has_char(field, '\r') && !text::has_char(field, '\0')
}

/// The message that an attestation signs, unless a field would span lines.
pub fn tls_attestation_message(
    issued_at: i64,
    client_ip: &str,
    method: &str,
    path: &str,
    fingerprint: &TlsFingerprint,
) -> (r: Option<Vec<u8>>)
    ensures
        ({
            let request = RequestView {
                client_ip: client_ip@,
                method: method@,
                path: path@,
                fingerprint: fingerprint@,
            };
            match r {
                Some(bytes) => attestation_message(issued_at as int, request) is Some && bytes@
                    == vstd::utf8::encode_utf8(attestation_message(issued_at as int, request)->0),
                None => attestation_message(issued_at as int, request) is None,
            }
        }),
{
    let ghost request = RequestView {
        client_ip: client_ip@,
        method: method@,
        path: path@,
        fingerprint: fingerprint@,
    };
    let mut fields: Vec<String> = Vec::new();
    fields.push("v1".to_string());
    fields.push(text::i64_text(issued_at));
    let ip = text::trim(client_ip);
    fields.push(text::to_lower(ip.as_str()));
    let verb = text::trim(method);
    fields.push(text::to_upper(verb.as_str()));
    fields.push(path.to_string());
    fields.push(copy_or_empty(&fingerprint.ja3));
    fields.push(copy_or_empty(&fingerprint.ja4));
    fields.push(fingerprint.source.clone());
    assert(text::views(fields@) =~= attestation_fields(issued_at as int, request));
    let mut i: usize = 0;
    while i < fields.len()
        invariant
            i <= fields@.len(),
            request == (RequestView {
                client_ip: client_ip@,
                method: method@,
                path: path@,
                fingerprint: fingerprint@,
            }),
            text::views(fields@) == attestation_fields(issued_at as int, request),
            forall|j: int| 0 <= j < i ==> is_plain_field(#[trigger] text::views(fields@)[j]),
        decreases fields@.len() - i,
    {
        assert(text::views(fields@)[i as int] == fields@[i as int]@);
        if !plain_field(fields[i].as_str()) {
            return None;
        }
        i += 1;
    }
    let message = text::join(&fields, "\n");
    Some(message.as_str().as_bytes_vec())
}

/// The hexadecimal code that a key gives a request.
fn code_for(
    key: &str,
    issued_at: i64,
    client_ip: &str,
    method: &str,
    path: &str,
    fingerprint: &TlsFingerprint,
) -> (r: Option<String>)
    ensures
        text::opt_view(r) == attestation_code(
            key@,
            issued_at as int,
            RequestView {
                client_ip: client_ip@,
                method: method@,
                path: path@,
                fingerprint: fingerprint@,
            },
        ),
{
    if key.as_bytes().len() < MIN_KEY_BYTES {
        return None;
    }
    let ja3 = normalize_ja3(
        match &fingerprint.ja3 {
            Some(value) => Some(value.as_str()),
            None => None,
        },
    );
    let ja4 = normalize_ja4(
        match &fingerprint.ja4 {
            Some(value) => Some(value.as_str()),
            None => None,
        },
    );
    let source = match normalize_tls_source(Some(fingerprint.source.as_str())) {
        Some(source) => source,
        None => {
            return None;
        },
    };
    if ja3.is_none() && ja4.is_none() {
        return None;
    }
    let bound = TlsFingerprint { ja3, ja4, source };
    match tls_attestation_message(issued_at, client_ip, method, path, &bound) {
        Some(message) => {
            let code = outside::hmac_sha256(key.as_bytes(), message.as_slice());
            Some(outside::hex_encode(code.as_slice()))
        },
        None => None,
    }
}

/// Signs a fingerprint for one request: `v1:<seconds>:<hexadecimal code>`.
pub fn create_tls_fingerprint_attestation(
    key: &str,
    issued_at: i64,
    client_ip: &str,
    method: &str,
    path: &str,
    fingerprint: &TlsFingerprint,
) -> (r: Option<String>)
    ensures
        text::opt_view(r) == attestation_token(
            key@,
            issued_at as int,
            RequestView {
                client_ip: client_ip@,
                method: method@,
                path: path@,
                fingerprint: fingerprint@,
            },
        ),
{
    match code_for(key, issued_at, client_ip, method, path, fingerprint) {
        Some(code) => {
            let mut token = "v1:".to_string();
            let seconds = text::i64_text(issued_at);
            token.append(seconds.as_str());
            token.append(":");
            token.append(code.as_str());
            Some(token)
        },
        None => None,
    }
}

/// Checks an attestation against the live request under one key.
pub fn verify_tls_fingerprint_attestation(
    token: Option<&str>,
    key: &str,
    max_age_seconds: u64,
    context: &TlsAttestationContext<'_>,
) -> (r: bool)
    ensures
        r == attests(
            text::opt_str_view(token),
            seq![key@],
            max_age_seconds as int,
            context.now as int,
            context.request(),
        ),
{
    let keys: [&str; 1] = [key];
    assert(text::str_views(keys@) =~= seq![key@]);
    verify_tls_fingerprint_attestation_with_keys(token, &keys, max_age_seconds, context)
}

/// Checks an attestation against the live request under several keys, any of which may have signed it.
pub fn verify_tls_fingerprint_attestation_with_keys(
    token: Option<&str>,
    keys: &[&str],
    max_age_seconds: u64,
    context: &TlsAttestationContext<'_>,
) -> (r: bool)
    ensures
        r == attests(
            text::opt_str_view(token),
            text::str_views(keys@),
            max_age_seconds as int,
            context.now as int,
            context.request(),
        ),
{
    let raw = match token {
        Some(raw) => raw,
        None => {
            return false;
        },
    };
    if max_age_seconds == 0 {
        return false;
    }
    let candidate = fold(raw);
    let parts = text::split_on(candidate.as_str(), ':');
    proof {
        assert(text::views(parts@).len() == parts@.len());
        assert forall|i: int| 0 <= i < parts@.len() implies text::views(parts@)[i] == (
        #[trigger] parts@[i])@ by {}
    }
    if parts.len() != 3 || !text::text_eq(parts[0].as_str(), "v1") {
        return false;
    }
    let issued_at = match text::parse_i64(parts[1].as_str()) {
        Some(issued_at) => issued_at,
        None => {
            return false;
        },
    };
    let signature = parts[2].as_str();
    if char_count(signature) != 64 || !all_hex(signature) {
        return false;
    }
    let apart: i128 = if context.now <= issued_at {
        issued_at as i128 - context.now as i128
    } else {
        context.now as i128 - issued_at as i128
    };
    if apart > max_age_seconds as i128 {
        return false;
    }
    let mut verified = false;
    let mut i: usize = 0;
    while i < keys.len()
        invariant
            i <= keys@.len(),
            verified == exists|j: int|
                0 <= j < i && #[trigger] attestation_code(
                    text::str_views(keys@)[j],
                    issued_at as int,
                    context.request(),
                ) == Some(signature@),
        decreases keys@.len() - i,
    {
        assert(text::str_views(keys@)[i as int] == keys@[i as int]@);
        let expected = code_for(
            keys[i],
            issued_at,
            context.client_ip,
            context.method,
            context.path,
            context.fingerprint,
        );
        let matches_here = match &expected {
            Some(code) => auth::constant_time_text_eq(code.as_str(), signature),
            None => false,
        };
        let before = verified;
        verified = verified || matches_here;
        proof {
            assert(matches_here == (attestation_code(
                text::str_views(keys@)[i as int],
                issued_at as int,
                context.request(),
            ) == Some(signature@)));
            if before {
                let j = choose|j: int|
                    0 <= j < i && #[trigger] attestation_code(
                        text::str_views(keys@)[j],
                        issued_at as int,
                        context.request(),
                    ) == Some(signature@);
                assert(0 <= j < i + 1);
            }
        }
        i += 1;
    }
    verified
}

/// An attestation code is 64 hexadecimal digits in lower case.
pub proof fn lemma_code_shape(key: Seq<char>, issued_at: int, request: RequestView, code: Seq<char>)
    requires
        attestation_code(key, issued_at, request) == Some(code),
    ensures
        code.len() == 64,
        forall|i: int|
            0 <= i < code.len() ==> text::is_digit(#[trigger] code[i]) || 'a' <= code[i] <= 'f',
{
    outside::lemma_hex_text_digits(
        outside::hmac_sha256_of(
            vstd::utf8::encode_utf8(key),
            vstd::utf8::encode_utf8(attestation_message(issued_at, with_canonical(request)->0)->0),
        )@,
    );
}

/// A decimal notation holds nothing but digits and a minus sign.
proof fn lemma_decimal_int_chars(i: int)
    ensures
        text::decimal_int(i).len() > 0,
        forall|j: int|
            0 <= j < text::decimal_int(i).len() ==> text::is_digit(
                #[trigger] text::decimal_int(i)[j],
            ) || text::decimal_int(i)[j] == '-',
{
    if i < 0 {
        text_laws::lemma_decimal_digits((-i) as nat);
        let digits = text::decimal((-i) as nat);
        assert forall|j: int| 0 <= j < text::decimal_int(i).len() implies text::is_digit(
            #[trigger] text::decimal_int(i)[j],
        ) || text::decimal_int(i)[j] == '-' by {
            if j > 0 {
                assert(text::decimal_int(i)[j] == digits[j - 1]);
            }
        }
    } else {
        text_laws::lemma_decimal_digits(i as nat);
    }
}

/// A token that was made carries the time and the code that it was made of.
pub proof fn lemma_token_parts(key: Seq<char>, issued_at: i64, request: RequestView)
    requires
        attestation_token(key, issued_at as int, request) is Some,
    ensures
        ({
            let token = attestation_token(key, issued_at as int, request)->0;
            let code = attestation_code(key, issued_at as int, request)->0;
            token_parts(token) == Some((issued_at as int, code))
        }),
{
    let t = issued_at as int;
    let token = attestation_token(key, t, request)->0;
    let code = attestation_code(key, t, request)->0;
    lemma_code_shape(key, t, request, code);
    lemma_decimal_int_chars(t);
    text_laws::law_signed_decimal_round_trip(issued_at);
    reveal_strlit("v1:");
    reveal_strlit("v1");
    reveal_strlit(":");
    let seconds = text::decimal_int(t);
    let parts = seq!["v1"@, seconds, code];
    assert forall|i: int| 0 <= i < parts.len() implies !(#[trigger] parts[i]).contains(':') by {
        if i == 1 {
            assert(!seconds.contains(':'));
        } else if i == 2 {
            assert(!code.contains(':'));
        } else {
            assert(parts[0] =~= "v1"@);
        }
    }
    text_laws::law_split_of_join(parts, ':');
    assert(parts.drop_last() =~= seq!["v1"@, seconds]);
    assert(parts.drop_last().drop_last() =~= seq!["v1"@]);
    assert(text::joined(seq!["v1"@], seq![':']) == "v1"@);
    assert(text::joined(parts.drop_last(), seq![':']) == "v1"@ + seq![':'] + seconds);
    assert(token =~= text::joined(parts, seq![':']));
    // The token is in lower case and without white space already.
    assert(token[0] == 'v');
    assert(token.last() == code.last());
    text_laws::lemma_trimmed_of_solid(token);
    assert forall|i: int| 0 <= i < token.len() implies !text::is_upper(#[trigger] token[i]) by {
        if i >= 3 && i < 3 + seconds.len() {
            assert(token[i] == seconds[i - 3]);
        } else if i >= 4 + seconds.len() {
            assert(token[i] == code[i - 4 - seconds.len()]);
        }
    }
    assert(text::lower(token) =~= token);
}

/// What was signed is accepted: a token verifies against the request that it
/// was made for, under any set of keys that holds the signing key, as long as
/// it is no older (or newer) than the maximum age.
pub proof fn law_attestation_round_trip(
    key: Seq<char>,
    issued_at: i64,
    request: RequestView,
    keys: Seq<Seq<char>>,
    max_age_seconds: int,
    now: int,
)
    requires
        attestation_token(key, issued_at as int, request) is Some,
        keys.contains(key),
        max_age_seconds > 0,
        distance(now, issued_at as int) <= max_age_seconds,
    ensures
        attests(
            attestation_token(key, issued_at as int, request),
            keys,
            max_age_seconds,
            now,
            request,
        ),
{
    lemma_token_parts(key, issued_at, request);
    let i = choose|i: int| 0 <= i < keys.len() && keys[i] == key;
    let code = attestation_code(key, issued_at as int, request)->0;
    assert(attestation_code(keys[i], issued_at as int, request) == Some(code));
}

/// An attestation expires: beyond the maximum age no key makes it verify.
pub proof fn law_attestation_expires(
    key: Seq<char>,
    issued_at: i64,
    request: RequestView,
    live: RequestView,
    keys: Seq<Seq<char>>,
    max_age_seconds: int,
    now: int,
)
    requires
        distance(now, issued_at as int) > max_age_seconds,
    ensures
        attestation_token(key, issued_at as int, request) is Some ==> !attests(
            attestation_token(key, issued_at as int, request),
            keys,
            max_age_seconds,
            now,
            live,
        ),
{
    if attestation_token(key, issued_at as int, request) is Some {
        lemma_token_parts(key, issued_at, request);
    }
}

/// The signed message determines each of its fields: two messages are the same
/// only for the same time, client, method, path and fingerprint.
pub proof fn law_message_binds_every_field(
    issued_at: i64,
    request: RequestView,
    other_issued_at: i64,
    other: RequestView,
)
    requires
        attestation_message(issued_at as int, request) is Some,
        attestation_message(issued_at as int, request) == attestation_message(
            other_issued_at as int,
            other,
        ),
    ensures
        issued_at == other_issued_at,
        request.path == other.path,
        text::upper(text::trimmed(request.method)) == text::upper(text::trimmed(other.method)),
        text::lower(text::trimmed(request.client_ip)) == text::lower(text::trimmed(other.client_ip)),
        or_empty(request.fingerprint.ja3) == or_empty(other.fingerprint.ja3),
        or_empty(request.fingerprint.ja4) == or_empty(other.fingerprint.ja4),
        request.fingerprint.source == other.fingerprint.source,
{
    let a = attestation_fields(issued_at as int, request);
    let b = attestation_fields(other_issued_at as int, other);
    reveal_strlit("\n");
    assert("\n"@ =~= seq!['\n']);
    assert forall|i: int| 0 <= i < a.len() implies !(#[trigger] a[i]).contains('\n') by {
        assert(is_plain_field(a[i]));
    }
    assert forall|i: int| 0 <= i < b.len() implies !(#[trigger] b[i]).contains('\n') by {
        assert(is_plain_field(b[i]));
    }
    text_laws::law_split_of_join(a, '\n');
    text_laws::law_split_of_join(b, '\n');
    assert(a[1] == b[1] && a[2] == b[2] && a[3] == b[3] && a[4] == b[4] && a[5] == b[5] && a[6]
        == b[6] && a[7] == b[7]);
    text_laws::law_signed_decimal_round_trip(issued_at);
    text_laws::law_signed_decimal_round_trip(other_issued_at);
}

/// A token cannot be replayed: if it verifies for a request with another
/// client, method, path or fingerprint, two different messages have one code.
pub proof fn law_replay_needs_a_collision(
    key: Seq<char>,
    issued_at: i64,
    request: RequestView,
    max_age_seconds: int,
    now: int,
    live: RequestView,
)
    requires
        attestation_token(key, issued_at as int, request) is Some,
        attests(
            attestation_token(key, issued_at as int, request),
            seq![key],
            max_age_seconds,
            now,
            live,
        ),
    ensures
        ({
            let signed = attestation_message(issued_at as int, with_canonical(request)->0)->0;
            let asked = attestation_message(issued_at as int, with_canonical(live)->0)->0;
            let secret = vstd::utf8::encode_utf8(key);
            &&& attestation_message(issued_at as int, with_canonical(live)->0) is Some
            &&& outside::hmac_sha256_of(secret, vstd::utf8::encode_utf8(signed))@
                == outside::hmac_sha256_of(secret, vstd::utf8::encode_utf8(asked))@
            &&& signed == asked ==> {
                &&& live.path == request.path
                &&& text::upper(text::trimmed(live.method)) == text::upper(
                    text::trimmed(request.method),
                )
                &&& text::lower(text::trimmed(live.client_ip)) == text::lower(
                    text::trimmed(request.client_ip),
                )
                &&& canonical(live.fingerprint) == canonical(request.fingerprint)
            }
        }),
{
    lemma_token_parts(key, issued_at, request);
    let t = issued_at as int;
    let signed = attestation_message(t, with_canonical(request)->0)->0;
    let asked = attestation_message(t, with_canonical(live)->0)->0;
    let secret = vstd::utf8::encode_utf8(key);
    let a = outside::hmac_sha256_of(secret, vstd::utf8::encode_utf8(signed))@;
    let b = outside::hmac_sha256_of(secret, vstd::utf8::encode_utf8(asked))@;
    assert(seq![key][0] == key);
    assert(outside::hex_text(a) == outside::hex_text(b));
    outside::law_hex_round_trip(a);
    outside::law_hex_round_trip(b);
    if signed == asked {
        law_message_binds_every_field(
            issued_at,
            with_canonical(request)->0,
            issued_at,
            with_canonical(live)->0,
        );
        let ours = canonical(request.fingerprint)->0;
        let theirs = canonical(live.fingerprint)->0;
        assert(or_empty(ours.ja3) == or_empty(theirs.ja3));
        assert(ours.ja3 is Some ==> ours.ja3->0.len() == 32);
        assert(theirs.ja3 is Some ==> theirs.ja3->0.len() == 32);
        assert(or_empty(ours.ja4) == or_empty(theirs.ja4));
        text_laws::lemma_single_piece(Seq::<char>::empty(), '_');
    }
}

/// Adding keys never makes a verified attestation fail, so a rotation can
/// accept the current and the previous key side by side.
pub proof fn law_more_keys_accept_no_less(
    token: Option<Seq<char>>,
    keys: Seq<Seq<char>>,
    more: Seq<Seq<char>>,
    max_age_seconds: int,
    now: int,
    request: RequestView,
)
    requires
        attests(token, keys, max_age_seconds, now, request),
    ensures
        attests(token, keys + more, max_age_seconds, now, request),
        attests(token, more + keys, max_age_seconds, now, request),
{
    let (issued_at, code) = token_parts(token->0)->0;
    let i = choose|i: int|
        0 <= i < keys.len() && #[trigger] attestation_code(keys[i], issued_at, request) == Some(code);
    assert((keys + more)[i] == keys[i]);
    assert((more + keys)[more.len() + i] == keys[i]);
    assert(attestation_code((keys + more)[i], issued_at, request) == Some(code));
    assert(attestation_code((more + keys)[more.len() + i], issued_at, request) == Some(code));
}

/// Canonical forms are fixed: normalizing one again changes nothing.
pub proof fn law_canonical_forms_are_fixed(value: Option<Seq<char>>)
    ensures
        ja3_of(value) is Some ==> ja3_of(ja3_of(value)) == ja3_of(value),
        ja4_of(value) is Some ==> ja4_of(ja4_of(value)) == ja4_of(value),
        tls_source_of(value) is Some ==> tls_source_of(tls_source_of(value)) == tls_source_of(value),
{
    if value is Some {
        let raw = value->0;
        let once = folded(raw);
        text_laws::lemma_trimmed_solid(raw);
        text_laws::lemma_lower_solid(text::trimmed(raw));
        text_laws::lemma_trimmed_of_solid(once);
        text_laws::law_lower_idempotent(text::trimmed(raw));
        assert(folded(once) == once);
    }
}

} // verus!
