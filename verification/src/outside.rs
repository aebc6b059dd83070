//! Calls into other crates. Each function here makes one such call, and its
//! contract is what the library relies on of it.
use base64::Engine;
use hmac::Mac;
use rand::RngCore;
use sha2::Digest;
use vstd::prelude::*;
use crate::json;
use crate::json::{Json, JsonObject, JsonView};
use crate::text;

verus! {

/// A parsed JSON document of `serde_json`.
#[verifier::external_type_specification]
#[verifier::external_body]
pub struct ExternalDocument(serde_json::Value);

/// What a parsed document holds.
pub uninterp spec fn document(value: serde_json::Value) -> JsonView;

/// The document that some bytes write in JSON, if they write one.
pub uninterp spec fn json_text(bytes: Seq<u8>) -> Option<JsonView>;

/// How deep `serde_json` lets a document nest.
pub const MAX_JSON_DEPTH: usize = 128;

/// A document taken apart by one level.
pub enum DocumentParts {
    Null,
    Bool(bool),
    Unsigned(u64),
    Signed(i64),
    Decimal(String),
    Text(String),
    Array(Vec<serde_json::Value>),
    Object(Vec<(String, serde_json::Value)>),
}

/// The members that a list of names and documents makes.
pub open spec fn documents_view(entries: Seq<(String, serde_json::Value)>, n: nat) -> Map<
    Seq<char>,
    JsonView,
>
    decreases n,
{
    if n == 0 || n > entries.len() {
        Map::empty()
    } else {
        documents_view(entries, (n - 1) as nat).insert(
            entries[n - 1].0@,
            document(entries[n - 1].1),
        )
    }
}

/// No two entries have one name.
pub open spec fn distinct_names(entries: Seq<(String, serde_json::Value)>) -> bool {
    forall|i: int, j: int|
        0 <= i < j < entries.len() ==> (#[trigger] entries[i]).0@ != (#[trigger] entries[j]).0@
}

/// Under distinct names each entry is found under its own.
proof fn lemma_documents_view(entries: Seq<(String, serde_json::Value)>, n: nat, i: int)
    requires
        distinct_names(entries),
        0 <= i < n <= entries.len(),
    ensures
        documents_view(entries, n).dom().contains(entries[i].0@),
        documents_view(entries, n)[entries[i].0@] == document(entries[i].1),
    decreases n,
{
    if i < n - 1 {
        lemma_documents_view(entries, (n - 1) as nat, i);
        assert(entries[i].0@ != entries[n - 1].0@);
    }
}

/// What a document holds that was taken apart by one level.
pub open spec fn parts_view(parts: DocumentParts) -> JsonView {
    match parts {
        DocumentParts::Null => JsonView::Null,
        DocumentParts::Bool(b) => JsonView::Bool(b),
        DocumentParts::Unsigned(n) => JsonView::Int(n as int),
        DocumentParts::Signed(n) => JsonView::Int(n as int),
        DocumentParts::Decimal(s) => JsonView::Decimal(s@),
        DocumentParts::Text(s) => JsonView::Text(s@),
        DocumentParts::Array(items) => JsonView::Array(
            items@.map_values(|item: serde_json::Value| document(item)),
        ),
        DocumentParts::Object(entries) => JsonView::Object(
            documents_view(entries@, entries@.len()),
        ),
    }
}

/// The parts of an absolute URL.
#[derive(Debug)]
pub struct UrlParts {
    pub text: String,
    pub scheme: String,
    pub host: Option<String>,
    pub domain: Option<String>,
    /// The port, where it is not the usual one of the scheme.
    pub port: Option<u16>,
    /// The port, or the usual one of the scheme.
    pub known_port: Option<u16>,
    pub username: String,
    pub password: Option<String>,
    pub query: Option<String>,
    pub fragment: Option<String>,
}

/// The parts of an absolute URL.
pub ghost struct UrlView {
    pub text: Seq<char>,
    pub scheme: Seq<char>,
    pub host: Option<Seq<char>>,
    pub domain: Option<Seq<char>>,
    pub port: Option<u16>,
    pub known_port: Option<u16>,
    pub username: Seq<char>,
    pub password: Option<Seq<char>>,
    pub query: Option<Seq<char>>,
    pub fragment: Option<Seq<char>>,
}

impl View for UrlParts {
    type V = UrlView;

    open spec fn view(&self) -> UrlView {
        UrlView {
            text: self.text@,
            scheme: self.scheme@,
            host: text::opt_view(self.host),
            domain: text::opt_view(self.domain),
            port: self.port,
            known_port: self.known_port,
            username: self.username@,
            password: text::opt_view(self.password),
            query: text::opt_view(self.query),
            fragment: text::opt_view(self.fragment),
        }
    }
}

/// The URL that a text writes, or what is wrong with it.
pub uninterp spec fn url_of(text: Seq<char>) -> Result<UrlView, Seq<char>>;

/// Calls `reqwest::Url::parse` and hands out the parts of the URL, or the text
/// of the error.
#[verifier::external_body]
pub(crate) fn parse_url(text: &str) -> (r: Result<UrlParts, String>)
    ensures
        match r {
            Ok(url) => url_of(text@) == Ok::<UrlView, Seq<char>>(url@),
            Err(message) => url_of(text@) == Err::<UrlView, Seq<char>>(message@),
        },
{
    reqwest::Url::parse(text).map_err(|error| error.to_string()).map(|url| UrlParts {
        text: url.to_string(),
        scheme: url.scheme().to_string(),
        host: url.host_str().map(str::to_string),
        domain: url.domain().map(str::to_string),
        port: url.port(),
        known_port: url.port_or_known_default(),
        username: url.username().to_string(),
        password: url.password().map(str::to_string),
        query: url.query().map(str::to_string),
        fragment: url.fragment().map(str::to_string),
    })
}

/// The scheme of a URI, where it has one, and whether it has an authority.
#[derive(Debug)]
pub struct UriParts {
    pub scheme: Option<String>,
    pub has_authority: bool,
}

/// The scheme of a URI, where it has one, and whether it has an authority.
pub ghost struct UriView {
    pub scheme: Option<Seq<char>>,
    pub has_authority: bool,
}

impl View for UriParts {
    type V = UriView;

    open spec fn view(&self) -> UriView {
        UriView { scheme: text::opt_view(self.scheme), has_authority: self.has_authority }
    }
}

/// The meaning of a parsed URI.
pub open spec fn uri_view(r: Result<UriParts, String>) -> Result<UriView, Seq<char>> {
    match r {
        Ok(parts) => Ok(parts@),
        Err(message) => Err(message@),
    }
}

/// The URI that a text writes, or what is wrong with it.
pub uninterp spec fn uri_of(text: Seq<char>) -> Result<UriView, Seq<char>>;

/// Calls `parse` for an `axum::http::Uri` and hands out the parts of the URI, or
/// the text of the error.
#[verifier::external_body]
pub(crate) fn parse_uri(text: &str) -> (r: Result<UriParts, String>)
    ensures
        uri_view(r) == uri_of(text@),
{
    text.parse::<axum::http::Uri>().map_err(|error| error.to_string()).map(|uri| UriParts {
        scheme: uri.scheme_str().map(str::to_string),
        has_authority: uri.authority().is_some(),
    })
}

/// The algorithm and the key identifier in the header of a signed token, if it has a header.
pub uninterp spec fn jwt_header_of(token: Seq<char>) -> Option<(Seq<char>, Option<Seq<char>>)>;

/// The meaning of a token header.
pub open spec fn header_view(header: Option<(String, Option<String>)>) -> Option<
    (Seq<char>, Option<Seq<char>>),
> {
    match header {
        Some((algorithm, kid)) => Some((algorithm@, text::opt_view(kid))),
        None => None,
    }
}

/// Calls `jsonwebtoken::decode_header` and hands out the name of the algorithm
/// and the key identifier.
#[verifier::external_body]
pub(crate) fn token_header(token: &str) -> (r: Option<(String, Option<String>)>)
    ensures
        header_view(r) == jwt_header_of(token@),
{
    jsonwebtoken::decode_header(token).ok().map(|header| (format!("{:?}", header.alg), header.kid))
}

/// The claims of a token that a key (a JWK in JSON) signed with an algorithm and
/// that are in order for an issuer, an audience, the claims that must be there, a
/// leeway and a moment; else whether it was the signature that failed.
pub uninterp spec fn token_claims_of(
    token: Seq<char>,
    key: Seq<char>,
    algorithm: Seq<char>,
    issuer: Seq<char>,
    audience: Seq<char>,
    required: Seq<Seq<char>>,
    leeway_seconds: u64,
    check_start: bool,
    now: u64,
) -> Result<JsonView, bool>;

/// The largest leeway with which tokens are checked, in seconds.
pub const MAX_LEEWAY_SECONDS: u64 = 300;

/// The key holds the 32 bytes at least of a public Edwards curve point.
pub open spec fn holds_edwards_point(key: JsonView) -> bool {
    match json::text_of(json::member(key, "x"@)) {
        Some(x) => match base64url_bytes(x) {
            Some(bytes) => bytes.len() >= 32,
            None => false,
        },
        None => false,
    }
}

/// The key, a JWK in JSON, is as long as the algorithm needs it to be.
pub open spec fn is_long_enough(key: Seq<char>, algorithm: Seq<char>) -> bool {
    algorithm == "EdDSA"@ ==> match json_text(vstd::utf8::encode_utf8(key)) {
        Some(document) => holds_edwards_point(document),
        None => false,
    }
}

/// Calls `jsonwebtoken::decode` with a JWK, at whatever moment the clock shows.
/// Claims come from the JSON parser and nest within its limit. The call takes the
/// first 32 bytes of an Edwards curve key unseen, and adds the leeway to the time
/// unseen, so that shorter keys and larger leeways are kept from it.
#[verifier::external_body]
pub(crate) fn decode_token(
    token: &str,
    key: &str,
    algorithm: &str,
    issuer: &str,
    audience: &str,
    required: &Vec<String>,
    leeway_seconds: u64,
    check_start: bool,
) -> (r: Result<serde_json::Value, bool>)
    requires
        leeway_seconds <= MAX_LEEWAY_SECONDS,
        is_long_enough(key@, algorithm@),
    ensures
        r matches Ok(claims) ==> json::nests_within(document(claims), MAX_JSON_DEPTH as nat),
        exists|now: u64|
            match r {
                Ok(claims) => Ok::<JsonView, bool>(document(claims)),
                Err(signature) => Err::<JsonView, bool>(signature),
            } == #[trigger] token_claims_of(
                token@,
                key@,
                algorithm@,
                issuer@,
                audience@,
                text::views(required@),
                leeway_seconds,
                check_start,
                now,
            ),
{
    let algorithm = algorithm.parse::<jsonwebtoken::Algorithm>().map_err(|_| false)?;
    let jwk = serde_json::from_str::<jsonwebtoken::jwk::Jwk>(key).map_err(|_| false)?;
    let key = jsonwebtoken::DecodingKey::from_jwk(&jwk).map_err(|_| false)?;
    let mut validation = jsonwebtoken::Validation::new(algorithm);
    validation.leeway = leeway_seconds;
    validation.validate_nbf = check_start;
    validation.set_audience(&[audience]);
    validation.set_issuer(&[issuer]);
    validation.set_required_spec_claims(required);
    jsonwebtoken::decode::<serde_json::Value>(token, &key, &validation)
        .map(|data| data.claims)
        .map_err(|error| matches!(error.kind(), jsonwebtoken::errors::ErrorKind::InvalidSignature))
}

/// The keys of a set of keys in JSON, each in JSON again, or what is wrong with it.
pub uninterp spec fn key_set_of(bytes: Seq<u8>) -> Result<Seq<Seq<char>>, Seq<char>>;

/// The meaning of the keys of a set.
pub open spec fn key_set_view(r: Result<Vec<String>, String>) -> Result<Seq<Seq<char>>, Seq<char>> {
    match r {
        Ok(keys) => Ok(text::views(keys@)),
        Err(message) => Err(message@),
    }
}

/// Every text writes a document in JSON.
pub open spec fn are_documents(texts: Seq<Seq<char>>) -> bool {
    forall|i: int|
        0 <= i < texts.len() ==> json_text(vstd::utf8::encode_utf8(#[trigger] texts[i])) is Some
}

/// Calls `serde_json::from_slice` for a `jsonwebtoken::jwk::JwkSet` and writes
/// each of its keys in JSON, or hands out the text of the error.
#[verifier::external_body]
pub(crate) fn parse_key_set(bytes: &[u8]) -> (r: Result<Vec<String>, String>)
    ensures
        key_set_view(r) == key_set_of(bytes@),
        match r {
            Ok(keys) => are_documents(text::views(keys@)),
            Err(_) => true,
        },
{
    let set = serde_json::from_slice::<jsonwebtoken::jwk::JwkSet>(bytes);
    let keys = set.and_then(|set| set.keys.iter().map(serde_json::to_string).collect());
    keys.map_err(|error: serde_json::Error| error.to_string())
}

/// A character as it is written in the JSON text of a string.
pub open spec fn json_char(c: char) -> Seq<char> {
    if c == '"' || c == '\\' {
        seq!['\\', c]
    } else if c == '\u{8}' {
        seq!['\\', 'b']
    } else if c == '\t' {
        seq!['\\', 't']
    } else if c == '\n' {
        seq!['\\', 'n']
    } else if c == '\u{c}' {
        seq!['\\', 'f']
    } else if c == '\r' {
        seq!['\\', 'r']
    } else if c >= ' ' {
        seq![c]
    } else {
        seq!['\\', 'u', '0', '0', hex_char(c as int / 16), hex_char(c as int % 16)]
    }
}

/// The characters of a string as they are written in its JSON text.
pub open spec fn json_chars(text: Seq<char>) -> Seq<char>
    decreases text.len(),
{
    if text.len() == 0 {
        Seq::empty()
    } else {
        json_chars(text.drop_last()) + json_char(text.last())
    }
}

/// The JSON text of a string.
pub open spec fn json_quoted(text: Seq<char>) -> Seq<char> {
    seq!['"'] + json_chars(text) + seq!['"']
}

/// Calls `to_string` on a `serde_json::Value` that holds a string: between
/// quotation marks, with quotation marks, backslashes and control characters
/// escaped. What it writes reads as that string again.
#[verifier::external_body]
pub(crate) fn quote_json(text: &str) -> (r: String)
    ensures
        r@ == json_quoted(text@),
        json_text(vstd::utf8::encode_utf8(r@)) == Some(JsonView::Text(text@)),
{
    serde_json::Value::from(text).to_string()
}

/// Calls `String::from_utf8`: the text that the bytes encode, if they are valid UTF-8.
#[verifier::external_body]
pub(crate) fn utf8_text(bytes: Vec<u8>) -> (r: Option<String>)
    ensures
        match r {
            Some(s) => vstd::utf8::valid_utf8(bytes@) && s@ == vstd::utf8::decode_utf8(bytes@),
            None => !vstd::utf8::valid_utf8(bytes@),
        },
{
    String::from_utf8(bytes).ok()
}

/// Calls `chrono::Utc::now` for the time in seconds since 1970. Nothing is
/// said of what the clock shows.
#[verifier::external_body]
pub(crate) fn now_seconds() -> (r: i64) {
    chrono::Utc::now().timestamp()
}

/// Calls `std::time::SystemTime::elapsed` on the first second of 1970: how many
/// whole seconds ago that is, or nothing where the clock stands before it.
/// Nothing is said of what the clock shows.
#[verifier::external_body]
pub(crate) fn epoch_elapsed() -> (r: Option<u64>) {
    std::time::UNIX_EPOCH.elapsed().ok().map(|elapsed| elapsed.as_secs())
}

/// Calls `chrono::Utc::now` for the time as RFC 3339 writes it. Nothing is said
/// of what the clock shows.
#[verifier::external_body]
pub(crate) fn now_text() -> (r: String) {
    chrono::Utc::now().to_rfc3339()
}

/// A lower-case hexadecimal digit.
pub open spec fn is_lower_hex(c: char) -> bool {
    text::is_digit(c) || 'a' <= c <= 'f'
}

/// An identifier in its simple form: 32 lower-case hexadecimal digits.
pub open spec fn is_identifier(id: Seq<char>) -> bool {
    id.len() == 32 && forall|i: int| 0 <= i < id.len() ==> is_lower_hex(#[trigger] id[i])
}

/// Calls `uuid::Uuid::new_v4` for a random identifier in its simple form: 32
/// lower-case hexadecimal digits.
#[verifier::external_body]
pub(crate) fn random_id() -> (r: String)
    ensures
        is_identifier(r@),
{
    uuid::Uuid::new_v4().simple().to_string()
}

/// Calls `rand::RngCore::fill_bytes` on the thread's generator for so many
/// random bytes. The bound keeps them within what one allocation can hold.
#[verifier::external_body]
pub(crate) fn random_bytes(n: usize) -> (r: Vec<u8>)
    requires
        n < 0x4000_0000,
    ensures
        r@.len() == n,
{
    let mut bytes = vec![0u8; n];
    rand::thread_rng().fill_bytes(&mut bytes);
    bytes
}

/// Calls `serde_json::from_slice` for a `serde_json::Value`. Its parser refuses
/// documents that nest deeper than its recursion limit.
#[verifier::external_body]
pub(crate) fn parse_document(bytes: &[u8]) -> (r: Option<serde_json::Value>)
    ensures
        match r {
            Some(value) => json_text(bytes@) == Some(document(value)) && json::nests_within(
                document(value),
                MAX_JSON_DEPTH as nat,
            ),
            None => json_text(bytes@) is None,
        },
{
    serde_json::from_slice::<serde_json::Value>(bytes).ok()
}

/// Tells the variants of `serde_json::Value` apart and moves their fields out;
/// a number that is no 64-bit integer is handed out as its text. An object has
/// each name once.
#[verifier::external_body]
pub(crate) fn open_document(value: serde_json::Value) -> (r: DocumentParts)
    ensures
        parts_view(r) == document(value),
        r matches DocumentParts::Object(entries) ==> distinct_names(entries@),
{
    match value {
        serde_json::Value::Null => DocumentParts::Null,
        serde_json::Value::Bool(b) => DocumentParts::Bool(b),
        serde_json::Value::Number(n) => match (n.as_u64(), n.as_i64()) {
            (Some(u), _) => DocumentParts::Unsigned(u),
            (None, Some(i)) => DocumentParts::Signed(i),
            _ => DocumentParts::Decimal(n.to_string()),
        },
        serde_json::Value::String(s) => DocumentParts::Text(s),
        serde_json::Value::Array(items) => DocumentParts::Array(items),
        serde_json::Value::Object(entries) => DocumentParts::Object(entries.into_iter().collect()),
    }
}

/// The library's own form of a document, unless it nests too deep.
fn read_document(value: serde_json::Value, depth: usize) -> (r: Option<Json>)
    ensures
        match r {
            Some(j) => j@ == document(value),
            None => !json::nests_within(document(value), depth as nat),
        },
    decreases depth,
{
    match open_document(value) {
        DocumentParts::Null => Some(Json::Null),
        DocumentParts::Bool(b) => Some(Json::Bool(b)),
        DocumentParts::Unsigned(n) => Some(Json::Unsigned(n)),
        DocumentParts::Signed(n) => Some(Json::Signed(n)),
        DocumentParts::Decimal(s) => Some(Json::Decimal(s)),
        DocumentParts::Text(s) => Some(Json::Text(s)),
        DocumentParts::Array(items) => {
            let ghost all = items@;
            let ghost views = all.map_values(|item: serde_json::Value| document(item));
            if depth == 0 {
                return None;
            }
            let mut out: Vec<Json> = Vec::new();
            for item in it: items.into_iter()
                invariant
                    it.seq() == all,
                    views == all.map_values(|item: serde_json::Value| document(item)),
                    document(value) == JsonView::Array(views),
                    depth > 0,
                    out@.len() == it.index(),
                    json::items_view(out@, out@.len()) == views.take(it.index() as int),
            {
                let ghost n = it.index();
                let ghost before = out@;
                assert(views[n as int] == document(item));
                match read_document(item, depth - 1) {
                    Some(j) => {
                        out.push(j);
                        proof {
                            json::lemma_items_prefix(before, out@, before.len());
                            assert(json::items_view(out@, out@.len()) =~= views.take(n + 1));
                        }
                    },
                    None => {
                        proof {
                            json::lemma_deep_item(document(value), n as int, depth as nat);
                        }
                        return None;
                    },
                }
            }
            assert(views.take(views.len() as int) =~= views);
            Some(Json::Array(out))
        },
        DocumentParts::Object(entries) => {
            let ghost all = entries@;
            if depth == 0 {
                return None;
            }
            let mut out: Vec<(String, Json)> = Vec::new();
            let mut fits: bool = true;
            for entry in it: entries.into_iter()
                invariant
                    it.seq() == all,
                    document(value) == JsonView::Object(documents_view(all, all.len())),
                    depth > 0,
                    fits ==> out@.len() == it.index() && json::members_view(out@, out@.len())
                        == documents_view(all, it.index() as nat),
                    !fits ==> exists|i: int|
                        0 <= i < it.index() && !json::nests_within(
                            #[trigger] document(all[i].1),
                            (depth - 1) as nat,
                        ),
            {
                let ghost n = it.index();
                let ghost before = out@;
                let (name, child) = entry;
                match read_document(child, depth - 1) {
                    Some(j) => {
                        out.push((name, j));
                        proof {
                            if fits {
                                json::lemma_members_prefix(before, out@, before.len());
                            }
                        }
                    },
                    None => {
                        assert(!json::nests_within(document(all[n as int].1), (depth - 1) as nat));
                        fits = false;
                    },
                }
            }
            if !fits {
                proof {
                    let i = choose|i: int|
                        0 <= i < all.len() && !json::nests_within(
                            #[trigger] document(all[i].1),
                            (depth - 1) as nat,
                        );
                    lemma_documents_view(all, all.len(), i);
                    json::lemma_deep_member(document(value), all[i].0@, depth as nat);
                }
                return None;
            }
            Some(Json::Object(JsonObject { entries: out }))
        },
    }
}

/// HMAC-SHA256 of a message under a key.
pub uninterp spec fn hmac_sha256_of(key: Seq<u8>, message: Seq<u8>) -> [u8; 32];

/// HMAC-SHA1 of a message under a key.
pub uninterp spec fn hmac_sha1_of(key: Seq<u8>, message: Seq<u8>) -> [u8; 20];

/// The SHA-256 digest of some bytes.
pub uninterp spec fn sha256_of(bytes: Seq<u8>) -> [u8; 32];

/// The character for six bits in the URL-safe alphabet of base64.
pub open spec fn base64url_char(bits: int) -> char {
    if bits < 26 {
        (bits + 65) as char
    } else if bits < 52 {
        (bits + 71) as char
    } else if bits < 62 {
        (bits - 4) as char
    } else if bits == 62 {
        '-'
    } else {
        '_'
    }
}

/// The base64 text of some bytes in the URL-safe alphabet, without padding: four
/// characters for every three bytes; two for one byte at the end, three for two.
pub open spec fn base64url_of(bytes: Seq<u8>) -> Seq<char>
    decreases bytes.len(),
{
    if bytes.len() == 0 {
        Seq::empty()
    } else if bytes.len() == 1 {
        seq![base64url_char(bytes[0] as int / 4), base64url_char(bytes[0] as int % 4 * 16)]
    } else if bytes.len() == 2 {
        seq![
            base64url_char(bytes[0] as int / 4),
            base64url_char(bytes[0] as int % 4 * 16 + bytes[1] as int / 16),
            base64url_char(bytes[1] as int % 16 * 4),
        ]
    } else {
        seq![
            base64url_char(bytes[0] as int / 4),
            base64url_char(bytes[0] as int % 4 * 16 + bytes[1] as int / 16),
            base64url_char(bytes[1] as int % 16 * 4 + bytes[2] as int / 64),
            base64url_char(bytes[2] as int % 64),
        ] + base64url_of(bytes.skip(3))
    }
}

/// The bytes whose base64 text this is, if it is one.
pub open spec fn base64url_bytes(text: Seq<char>) -> Option<Seq<u8>> {
    if exists|bytes: Seq<u8>| #[trigger] base64url_of(bytes) == text {
        Some(choose|bytes: Seq<u8>| #[trigger] base64url_of(bytes) == text)
    } else {
        None
    }
}

/// The lower-case hexadecimal digit of a number below sixteen.
pub open spec fn hex_char(d: int) -> char {
    if d < 10 {
        (d + 48) as char
    } else {
        (d + 87) as char
    }
}

/// Two lower-case hexadecimal digits for each byte, the high one first.
pub open spec fn hex_text(bytes: Seq<u8>) -> Seq<char> {
    Seq::new(
        2 * bytes.len(),
        |i: int|
            hex_char(
                if i % 2 == 0 {
                    bytes[i / 2] as int / 16
                } else {
                    bytes[i / 2] as int % 16
                },
            ),
    )
}

/// The number that a hexadecimal digit of either case writes.
pub open spec fn hex_digit_value(c: char) -> int {
    if text::is_digit(c) {
        c as int - 48
    } else if 'a' <= c {
        c as int - 87
    } else {
        c as int - 55
    }
}

/// The bytes that pairs of hexadecimal digits write, if the text is made of such pairs.
pub open spec fn hex_bytes(text: Seq<char>) -> Option<Seq<u8>> {
    if text.len() % 2 == 0 && (forall|i: int| 0 <= i < text.len() ==> text::is_hex_digit(#[trigger] text[i])) {
        Some(
            Seq::new(
                text.len() / 2,
                |i: int| (hex_digit_value(text[2 * i]) * 16 + hex_digit_value(text[2 * i + 1])) as u8,
            ),
        )
    } else {
        None
    }
}

/// Calls `hmac::Hmac<sha2::Sha256>` on a whole message. The key may have any
/// length; the code is 32 bytes and depends on the key and the message alone.
#[verifier::external_body]
pub(crate) fn hmac_sha256(key: &[u8], message: &[u8]) -> (r: [u8; 32])
    ensures
        r == hmac_sha256_of(key@, message@),
{
    let mut mac = hmac::Hmac::<sha2::Sha256>::new_from_slice(key).expect("any key length");
    mac.update(message);
    mac.finalize().into_bytes().into()
}

/// Calls `verify_slice` of `hmac::Hmac<sha2::Sha256>`: the code is accepted
/// exactly when it is the whole HMAC-SHA256 of the message under the key.
#[verifier::external_body]
pub(crate) fn hmac_sha256_accepts(key: &[u8], message: &[u8], code: &[u8]) -> (r: bool)
    ensures
        r == (code@ == hmac_sha256_of(key@, message@)@),
{
    let mut mac = hmac::Hmac::<sha2::Sha256>::new_from_slice(key).expect("any key length");
    mac.update(message);
    mac.verify_slice(code).is_ok()
}

/// Calls `hmac::Hmac<sha1::Sha1>` on a whole message. The key may have any
/// length; the code is 20 bytes and depends on the key and the message alone.
#[verifier::external_body]
pub(crate) fn hmac_sha1(key: &[u8], message: &[u8]) -> (r: [u8; 20])
    ensures
        r == hmac_sha1_of(key@, message@),
{
    let mut mac = hmac::Hmac::<sha1::Sha1>::new_from_slice(key).expect("any key length");
    mac.update(message);
    mac.finalize().into_bytes().into()
}

/// Calls `sha2::Sha256::digest`: 32 bytes that depend on the input alone.
#[verifier::external_body]
pub(crate) fn sha256(bytes: &[u8]) -> (r: [u8; 32])
    ensures
        r == sha256_of(bytes@),
{
    sha2::Sha256::digest(bytes).into()
}

/// Calls `hex::encode`: two lower-case hexadecimal digits for each byte. The
/// bound keeps the text within what one allocation can hold.
#[verifier::external_body]
pub(crate) fn hex_encode(bytes: &[u8]) -> (r: String)
    requires
        bytes@.len() < 0x4000_0000,
    ensures
        r@ == hex_text(bytes@),
{
    hex::encode(bytes)
}

/// Calls `hex::decode`: the bytes of the digit pairs, of either case; nothing
/// for an odd number of digits or any other character.
#[verifier::external_body]
pub(crate) fn hex_decode(text: &str) -> (r: Option<Vec<u8>>)
    ensures
        match r {
            Some(bytes) => hex_bytes(text@) == Some(bytes@),
            None => hex_bytes(text@) is None,
        },
{
    hex::decode(text).ok()
}

/// Calls `base64::engine::general_purpose::URL_SAFE_NO_PAD.encode`. The bound
/// keeps the text within what one allocation can hold.
#[verifier::external_body]
pub(crate) fn base64url_encode(bytes: &[u8]) -> (r: String)
    requires
        bytes@.len() < 0x4000_0000,
    ensures
        r@ == base64url_of(bytes@),
{
    base64::engine::general_purpose::URL_SAFE_NO_PAD.encode(bytes)
}

/// Calls `base64::engine::general_purpose::URL_SAFE_NO_PAD.decode`. It takes no
/// padding and no bits that are left over, so that a text is read exactly when
/// it is what the same engine writes.
#[verifier::external_body]
pub(crate) fn base64url_decode(text: &str) -> (r: Option<Vec<u8>>)
    ensures
        match r {
            Some(bytes) => base64url_bytes(text@) == Some(bytes@),
            None => base64url_bytes(text@) is None,
        },
{
    base64::engine::general_purpose::URL_SAFE_NO_PAD.decode(text).ok()
}

/// An identifier of 32 digits with hyphens between its groups of 8, 4, 4, 4
/// and 12 digits.
pub open spec fn hyphenated(id: Seq<char>) -> Seq<char> {
    id.subrange(0, 8) + "-"@ + id.subrange(8, 12) + "-"@ + id.subrange(12, 16) + "-"@
        + id.subrange(16, 20) + "-"@ + id.subrange(20, 32)
}

/// A random identifier in its hyphenated form.
pub fn random_uuid() -> (r: String)
    ensures
        exists|id: Seq<char>| is_identifier(id) && r@ == #[trigger] hyphenated(id),
{
    let id = random_id();
    let chars = text::chars_of(id.as_str());
    let mut out = text::string_between(chars.as_slice(), 0, 8);
    out.append("-");
    out.append(text::string_between(chars.as_slice(), 8, 12).as_str());
    out.append("-");
    out.append(text::string_between(chars.as_slice(), 12, 16).as_str());
    out.append("-");
    out.append(text::string_between(chars.as_slice(), 16, 20).as_str());
    out.append("-");
    out.append(text::string_between(chars.as_slice(), 20, 32).as_str());
    assert(out@ == hyphenated(id@));
    out
}

/// The time in whole seconds since 1970, given how long ago that is; none where
/// the clock stands before it.
pub open spec fn since_epoch(elapsed: Option<u64>) -> u64 {
    match elapsed {
        Some(seconds) => seconds,
        None => 0,
    }
}

/// The time in whole seconds since 1970, given how long ago that is; none where
/// the clock stands before it.
pub fn unix_seconds_at(elapsed: Option<u64>) -> (r: u64)
    ensures
        r == since_epoch(elapsed),
{
    match elapsed {
        Some(seconds) => seconds,
        None => 0,
    }
}

/// The time in whole seconds since 1970, none before it.
pub fn unix_seconds() -> (r: u64)
    ensures
        exists|elapsed: Option<u64>| r == #[trigger] since_epoch(elapsed),
{
    unix_seconds_at(epoch_elapsed())
}

/// The claims of a token that a key signed, in the library's own form; else
/// whether it was the signature that failed.
pub fn decode_claims(
    token: &str,
    key: &str,
    algorithm: &str,
    issuer: &str,
    audience: &str,
    required: &Vec<String>,
    leeway_seconds: u64,
    check_start: bool,
) -> (r: Result<Json, bool>)
    requires
        leeway_seconds <= MAX_LEEWAY_SECONDS,
        is_long_enough(key@, algorithm@),
    ensures
        exists|now: u64|
            json::outcome_view(r) == #[trigger] token_claims_of(
                token@,
                key@,
                algorithm@,
                issuer@,
                audience@,
                text::views(required@),
                leeway_seconds,
                check_start,
                now,
            ),
{
    match decode_token(
        token,
        key,
        algorithm,
        issuer,
        audience,
        required,
        leeway_seconds,
        check_start,
    ) {
        Ok(claims) => match read_document(claims, MAX_JSON_DEPTH) {
            Some(value) => Ok(value),
            None => Err(false),
        },
        Err(signature) => Err(signature),
    }
}

/// The document that some bytes write in JSON.
pub fn parse_json(bytes: &[u8]) -> (r: Option<Json>)
    ensures
        match r {
            Some(j) => json_text(bytes@) == Some(j@),
            None => json_text(bytes@) is None,
        },
{
    match parse_document(bytes) {
        Some(value) => read_document(value, MAX_JSON_DEPTH),
        None => None,
    }
}

/// The digits of a hexadecimal text are lower-case hexadecimal digits.
pub proof fn lemma_hex_text_digits(bytes: Seq<u8>)
    ensures
        hex_text(bytes).len() == 2 * bytes.len(),
        forall|i: int|
            0 <= i < hex_text(bytes).len() ==> {
                let c = #[trigger] hex_text(bytes)[i];
                text::is_digit(c) || 'a' <= c <= 'f'
            },
{
    assert forall|i: int| 0 <= i < hex_text(bytes).len() implies {
        let c = #[trigger] hex_text(bytes)[i];
        text::is_digit(c) || 'a' <= c <= 'f'
    } by {
        assert(0 <= i / 2 < bytes.len());
    }
}

/// The characters of a base64 text are letters, digits, hyphens and underscores.
pub proof fn lemma_base64url_alphabet(bytes: Seq<u8>)
    ensures
        forall|i: int|
            0 <= i < base64url_of(bytes).len() ==> {
                let c = #[trigger] base64url_of(bytes)[i];
                text::is_alphanumeric(c) || c == '-' || c == '_'
            },
    decreases bytes.len(),
{
    if bytes.len() >= 3 {
        lemma_base64url_alphabet(bytes.skip(3));
        let rest = base64url_of(bytes.skip(3));
        assert forall|i: int| 0 <= i < base64url_of(bytes).len() implies {
            let c = #[trigger] base64url_of(bytes)[i];
            text::is_alphanumeric(c) || c == '-' || c == '_'
        } by {
            if i >= 4 {
                assert(base64url_of(bytes)[i] == rest[i - 4]);
            }
        }
    }
}

/// No two bits of six share a character.
proof fn lemma_base64url_char(a: int, b: int)
    requires
        0 <= a < 64,
        0 <= b < 64,
        base64url_char(a) == base64url_char(b),
    ensures
        a == b,
{
}

/// How long a base64 text is: it tells how many bytes it writes.
proof fn lemma_base64url_len(bytes: Seq<u8>)
    ensures
        base64url_of(bytes).len() == bytes.len() / 3 * 4 + (if bytes.len() % 3 == 0 {
            0nat
        } else {
            bytes.len() % 3 + 1
        }),
    decreases bytes.len(),
{
    if bytes.len() >= 3 {
        lemma_base64url_len(bytes.skip(3));
        assert(base64url_of(bytes).len() == 4 + base64url_of(bytes.skip(3)).len());
    }
}

/// The first four characters of a base64 text write three bytes, and the others
/// write the rest.
proof fn lemma_base64url_triple(bytes: Seq<u8>)
    requires
        bytes.len() >= 3,
    ensures
        base64url_of(bytes).len() >= 4,
        base64url_of(bytes)[0] == base64url_char(bytes[0] as int / 4),
        base64url_of(bytes)[1] == base64url_char(bytes[0] as int % 4 * 16 + bytes[1] as int / 16),
        base64url_of(bytes)[2] == base64url_char(bytes[1] as int % 16 * 4 + bytes[2] as int / 64),
        base64url_of(bytes)[3] == base64url_char(bytes[2] as int % 64),
        base64url_of(bytes).skip(4) == base64url_of(bytes.skip(3)),
{
    assert(base64url_of(bytes).skip(4) =~= base64url_of(bytes.skip(3)));
}

/// No two byte strings share a base64 text.
proof fn lemma_base64url_injective(a: Seq<u8>, b: Seq<u8>)
    requires
        base64url_of(a) == base64url_of(b),
    ensures
        a == b,
    decreases a.len(),
{
    let text = base64url_of(a);
    assert(a.len() == b.len()) by {
        lemma_base64url_len(a);
        lemma_base64url_len(b);
    }
    let other = base64url_of(b);
    if a.len() == 1 {
        assert(text[0] == other[0]);
        lemma_base64url_char(a[0] as int / 4, b[0] as int / 4);
        assert(text[1] == other[1]);
        lemma_base64url_char(a[0] as int % 4 * 16, b[0] as int % 4 * 16);
        assert(a =~= b);
    } else if a.len() == 2 {
        assert(text[0] == other[0]);
        assert(text[1] == other[1]);
        assert(text[2] == other[2]);
        lemma_base64url_char(a[0] as int / 4, b[0] as int / 4);
        lemma_base64url_char(
            a[0] as int % 4 * 16 + a[1] as int / 16,
            b[0] as int % 4 * 16 + b[1] as int / 16,
        );
        lemma_base64url_char(a[1] as int % 16 * 4, b[1] as int % 16 * 4);
        assert(a =~= b);
    } else if a.len() >= 3 {
        lemma_base64url_triple(a);
        lemma_base64url_triple(b);
        lemma_base64url_char(a[0] as int / 4, b[0] as int / 4);
        lemma_base64url_char(
            a[0] as int % 4 * 16 + a[1] as int / 16,
            b[0] as int % 4 * 16 + b[1] as int / 16,
        );
        lemma_base64url_char(
            a[1] as int % 16 * 4 + a[2] as int / 64,
            b[1] as int % 16 * 4 + b[2] as int / 64,
        );
        lemma_base64url_char(a[2] as int % 64, b[2] as int % 64);
        lemma_base64url_injective(a.skip(3), b.skip(3));
        assert forall|i: int| 0 <= i < a.len() implies a[i] == b[i] by {
            if i >= 3 {
                assert(a[i] == a.skip(3)[i - 3]);
                assert(b[i] == b.skip(3)[i - 3]);
            }
        }
        assert(a =~= b);
    } else {
        assert(a =~= b);
    }
}

/// Reading a base64 text gives back the bytes that were written in it.
pub proof fn law_base64url_round_trip(bytes: Seq<u8>)
    ensures
        base64url_bytes(base64url_of(bytes)) == Some(bytes),
{
    let text = base64url_of(bytes);
    let found = choose|found: Seq<u8>| #[trigger] base64url_of(found) == text;
    assert(base64url_of(found) == text);
    lemma_base64url_injective(found, bytes);
}

/// The JSON text of a string stands on one line.
pub proof fn law_quoted_text_is_one_line(text: Seq<char>)
    ensures
        !json_quoted(text).contains('\n'),
        !json_quoted(text).contains('\r'),
{
    lemma_json_chars(text);
    let all = json_quoted(text);
    assert forall|i: int| 0 <= i < all.len() implies all[i] >= ' ' by {
        if 0 < i < all.len() - 1 {
            assert(all[i] == json_chars(text)[i - 1]);
        }
    }
}

/// Nothing in what is written for a character is a control character.
proof fn lemma_json_char(c: char)
    ensures
        forall|i: int| 0 <= i < json_char(c).len() ==> #[trigger] json_char(c)[i] >= ' ',
{
    let written = json_char(c);
    assert(hex_char(c as int / 16) >= '0' || c >= ' ');
    assert(0 <= c as int % 16 < 16);
    assert(hex_char(c as int % 16) >= '0');
    assert forall|i: int| 0 <= i < written.len() implies #[trigger] written[i] >= ' ' by {
        assert(i == 0 || i == 1 || i == 2 || i == 3 || i == 4 || i == 5);
    }
}

/// Nothing in the JSON text of a string is a control character.
proof fn lemma_json_chars(text: Seq<char>)
    ensures
        forall|i: int| 0 <= i < json_chars(text).len() ==> #[trigger] json_chars(text)[i] >= ' ',
    decreases text.len(),
{
    if text.len() > 0 {
        lemma_json_chars(text.drop_last());
        lemma_json_char(text.last());
        let front = json_chars(text.drop_last());
        let all = json_chars(text);
        assert forall|i: int| 0 <= i < all.len() implies #[trigger] all[i] >= ' ' by {
            if i < front.len() {
                assert(all[i] == front[i]);
            } else {
                assert(all[i] == json_char(text.last())[i - front.len()]);
            }
        }
    }
}

/// Reading hexadecimal digits gives back the bytes that were written in them.
pub proof fn law_hex_round_trip(bytes: Seq<u8>)
    ensures
        hex_bytes(hex_text(bytes)) == Some(bytes),
{
    lemma_hex_text_digits(bytes);
    let text = hex_text(bytes);
    let back = hex_bytes(text).unwrap();
    assert forall|i: int| 0 <= i < bytes.len() implies back[i] == bytes[i] by {
        assert((2 * i) / 2 == i && (2 * i) % 2 == 0);
        assert((2 * i + 1) / 2 == i && (2 * i + 1) % 2 == 1);
        assert(text[2 * i] == hex_char(bytes[i] as int / 16));
        assert(text[2 * i + 1] == hex_char(bytes[i] as int % 16));
    }
    assert(back =~= bytes);
}

} // verus!
