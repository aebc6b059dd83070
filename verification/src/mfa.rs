//! Second factors and sessions of administrators: one-time passwords, backup
//! codes, random tokens and the hashes under which they are stored.
use vstd::prelude::*;
use crate::json;
use crate::json::{Json, JsonObject, JsonView};
use crate::outside;
use crate::settings;
use crate::text;

verus! {

/// The bytes of a number, the highest first.
pub open spec fn big_endian(n: u64) -> Seq<u8> {
    seq![
        (n / 0x100_0000_0000_0000) as u8,
        (n / 0x1_0000_0000_0000 % 256) as u8,
        (n / 0x100_0000_0000 % 256) as u8,
        (n / 0x1_0000_0000 % 256) as u8,
        (n / 0x100_0000 % 256) as u8,
        (n / 0x1_0000 % 256) as u8,
        (n / 0x100 % 256) as u8,
        (n % 256) as u8,
    ]
}

/// The 31-bit number that a digest holds at the place its last byte names.
pub open spec fn truncated(digest: Seq<u8>) -> int {
    let offset = (digest[19] % 16) as int;
    (digest[offset] % 128) * 0x100_0000 + digest[offset + 1] * 0x1_0000 + digest[offset + 2] * 0x100
        + digest[offset + 3]
}

/// The last six decimal digits of a number.
pub open spec fn six_digits(n: int) -> Seq<char> {
    seq![
        text::digit_char(n / 100_000 % 10),
        text::digit_char(n / 10_000 % 10),
        text::digit_char(n / 1_000 % 10),
        text::digit_char(n / 100 % 10),
        text::digit_char(n / 10 % 10),
        text::digit_char(n % 10),
    ]
}

/// The one-time password of a secret at a counter.
pub open spec fn totp_of(secret: Seq<u8>, counter: u64) -> Seq<char> {
    six_digits(truncated(outside::hmac_sha1_of(secret, big_endian(counter))@))
}

/// The counter before another one; none before the first.
pub open spec fn counter_before(counter: u64) -> u64 {
    if counter == 0 {
        0
    } else {
        (counter - 1) as u64
    }
}

/// The code is the password of the secret at the counter, the one before or the one behind.
pub open spec fn totp_matches(secret_hex: Seq<char>, code: Seq<char>, counter: u64) -> bool {
    match outside::hex_bytes(secret_hex) {
        Some(secret) => {
            ||| code == totp_of(secret, counter_before(counter))
            ||| code == totp_of(secret, counter)
            ||| code == totp_of(secret, (counter + 1) as u64)
        },
        None => false,
    }
}

/// How many seconds a one-time password counts for.
pub const TOTP_PERIOD: u64 = 30;

/// The hash under which a secret is stored.
pub open spec fn hash_of(value: Seq<char>) -> Seq<char> {
    outside::hex_text(outside::sha256_of(vstd::utf8::encode_utf8(value))@)
}

/// The one-time password of a secret at a counter.
pub fn totp_code(secret: &[u8], counter: u64) -> (r: String)
    ensures
        r@ == totp_of(secret@, counter),
{
    let message: [u8; 8] = [
        (counter / 0x100_0000_0000_0000) as u8,
        (counter / 0x1_0000_0000_0000 % 256) as u8,
        (counter / 0x100_0000_0000 % 256) as u8,
        (counter / 0x1_0000_0000 % 256) as u8,
        (counter / 0x100_0000 % 256) as u8,
        (counter / 0x1_0000 % 256) as u8,
        (counter / 0x100 % 256) as u8,
        (counter % 256) as u8,
    ];
    assert(message@ =~= big_endian(counter));
    let digest = outside::hmac_sha1(secret, message.as_slice());
    let offset: usize = (digest[19] % 16) as usize;
    let high: u32 = (digest[offset] % 128) as u32;
    let binary: u32 = high * 0x100_0000 + digest[offset + 1] as u32 * 0x1_0000 + digest[offset
        + 2] as u32 * 0x100 + digest[offset + 3] as u32;
    let mut out = String::new();
    out.push(((binary / 100_000 % 10) as u8 + 48) as char);
    out.push(((binary / 10_000 % 10) as u8 + 48) as char);
    out.push(((binary / 1_000 % 10) as u8 + 48) as char);
    out.push(((binary / 100 % 10) as u8 + 48) as char);
    out.push(((binary / 10 % 10) as u8 + 48) as char);
    out.push(((binary % 10) as u8 + 48) as char);
    assert(out@ =~= six_digits(binary as int));
    out
}

/// Whether a code is a password of the secret at a counter or next to it.
pub fn verify_totp_at(secret_hex: &str, code: &str, counter: u64) -> (r: bool)
    requires
        counter < u64::MAX,
    ensures
        r == totp_matches(secret_hex@, code@, counter),
{
    let secret = match outside::hex_decode(secret_hex) {
        Some(bytes) => bytes,
        None => {
            return false;
        },
    };
    let before: u64 = if counter == 0 {
        0
    } else {
        counter - 1
    };
    text::text_eq(totp_code(secret.as_slice(), before).as_str(), code) || text::text_eq(
        totp_code(secret.as_slice(), counter).as_str(),
        code,
    ) || text::text_eq(totp_code(secret.as_slice(), counter + 1).as_str(), code)
}

/// Whether a code is a password of the secret now.
pub fn verify_totp(secret_hex: &str, code: &str) -> (r: bool)
    ensures
        exists|counter: u64| counter < u64::MAX && r == #[trigger] totp_matches(
            secret_hex@,
            code@,
            counter,
        ),
{
    let counter = outside::unix_seconds() / TOTP_PERIOD;
    verify_totp_at(secret_hex, code, counter)
}

/// A text that may be drawn as a token: so many bytes in hexadecimal.
pub open spec fn is_token(s: Seq<char>, bytes: nat) -> bool {
    exists|drawn: Seq<u8>| drawn.len() == bytes && s == #[trigger] outside::hex_text(drawn)
}

/// So many random bytes in hexadecimal.
pub fn random_token(bytes: usize) -> (r: String)
    requires
        bytes < 0x4000_0000,
    ensures
        is_token(r@, bytes as nat),
{
    let drawn = outside::random_bytes(bytes);
    outside::hex_encode(drawn.as_slice())
}

/// The hash under which a secret is stored.
pub fn hash_secret(value: &str) -> (r: String)
    ensures
        r@ == hash_of(value@),
{
    let digest = outside::sha256(value.as_bytes());
    outside::hex_encode(digest.as_slice())
}

/// How many backup codes are handed out at once.
pub const BACKUP_CODES: usize = 10;

/// The hashes of a list of codes.
pub open spec fn hashes_of(codes: Seq<Seq<char>>) -> Seq<Seq<char>> {
    codes.map_values(|code: Seq<char>| hash_of(code))
}

/// The hashes under which codes are stored.
pub fn hash_all(codes: &Vec<String>) -> (r: Vec<String>)
    ensures
        text::views(r@) == hashes_of(text::views(codes@)),
{
    let mut out: Vec<String> = Vec::new();
    let mut i: usize = 0;
    while i < codes.len()
        invariant
            i <= codes@.len(),
            out@.len() == i,
            forall|j: int| 0 <= j < i ==> (#[trigger] out@[j])@ == hash_of(codes@[j]@),
        decreases codes@.len() - i,
    {
        out.push(hash_secret(codes[i].as_str()));
        i += 1;
    }
    assert(text::views(out@) =~= hashes_of(text::views(codes@)));
    out
}

/// How many random bytes a backup code is made of.
pub const BACKUP_CODE_BYTES: usize = 4;

/// Fresh backup codes, and the hashes under which they are stored.
pub fn new_backup_codes() -> (r: (Vec<String>, Vec<String>))
    ensures
        r.0@.len() == BACKUP_CODES,
        forall|i: int|
            0 <= i < BACKUP_CODES ==> is_token((#[trigger] r.0@[i])@, BACKUP_CODE_BYTES as nat),
        text::views(r.1@) == hashes_of(text::views(r.0@)),
{
    let mut codes: Vec<String> = Vec::new();
    let mut i: usize = 0;
    while i < BACKUP_CODES
        invariant
            i <= BACKUP_CODES,
            codes@.len() == i,
            forall|j: int|
                0 <= j < i ==> is_token((#[trigger] codes@[j])@, BACKUP_CODE_BYTES as nat),
        decreases BACKUP_CODES - i,
    {
        codes.push(random_token(BACKUP_CODE_BYTES));
        i += 1;
    }
    let hashes = hash_all(&codes);
    (codes, hashes)
}

/// The texts of a list that differ from one.
pub open spec fn without(list: Seq<Seq<char>>, item: Seq<char>) -> Seq<Seq<char>>
    decreases list.len(),
{
    if list.len() == 0 {
        Seq::empty()
    } else {
        let before = without(list.drop_last(), item);
        if list.last() == item {
            before
        } else {
            before.push(list.last())
        }
    }
}

/// Uses a backup code up: whether it was one, and the hashes that are left.
pub fn use_backup_code(hashes: &Vec<String>, code: &str) -> (r: (bool, Vec<String>))
    ensures
        r.0 == text::views(hashes@).contains(hash_of(code@)),
        text::views(r.1@) == without(text::views(hashes@), hash_of(code@)),
{
    let hash = hash_secret(code);
    let ghost views = text::views(hashes@);
    let mut found = false;
    let mut left: Vec<String> = Vec::new();
    let mut i: usize = 0;
    assert(text::views(left@) =~= without(views.take(0), hash@));
    while i < hashes.len()
        invariant
            i <= hashes@.len(),
            views == text::views(hashes@),
            hash@ == hash_of(code@),
            found == views.take(i as int).contains(hash@),
            text::views(left@) == without(views.take(i as int), hash@),
        decreases hashes@.len() - i,
    {
        let ghost now = views.take(i + 1);
        let ghost kept = text::views(left@);
        assert(now.drop_last() =~= views.take(i as int));
        assert(now.last() == hashes@[i as int]@);
        if text::text_eq(hashes[i].as_str(), hash.as_str()) {
            found = true;
            assert(now[i as int] == hash@);
        } else {
            left.push(hashes[i].clone());
            assert(text::views(left@) =~= kept.push(hashes@[i as int]@));
            proof {
                if now.contains(hash@) {
                    let k = choose|k: int| 0 <= k < now.len() && now[k] == hash@;
                    assert(views.take(i as int)[k] == hash@);
                }
                if views.take(i as int).contains(hash@) {
                    let k = choose|k: int| 0 <= k < i && views.take(i as int)[k] == hash@;
                    assert(now[k] == hash@);
                }
            }
        }
        i += 1;
    }
    assert(views.take(i as int) =~= views);
    (found, left)
}

/// The administrator that a request names, else the configured one, else the default.
pub open spec fn admin_of(user: Option<Seq<char>>, configured: Option<Seq<char>>) -> Seq<char> {
    match settings::solid_setting(user) {
        Some(name) => name,
        None => settings::string_setting(configured, "admin"@),
    }
}

/// The administrator that a request names, else the configured one, else the default.
pub fn admin_user(user: Option<&str>, configured: Option<&str>) -> (r: String)
    ensures
        r@ == admin_of(text::opt_str_view(user), text::opt_str_view(configured)),
{
    match settings::env_solid(user) {
        Some(name) => name,
        None => settings::env_string(configured, "admin"),
    }
}

/// The answer to a code that was checked.
pub open spec fn checked_answer(valid: bool) -> Map<Seq<char>, JsonView> {
    map![
        "status"@ => JsonView::Text(if valid { "success"@ } else { "error"@ }),
        "valid"@ => JsonView::Bool(valid),
    ]
}

/// The answer to a one-time password.
pub fn totp_answer(valid: bool) -> (r: Json)
    ensures
        r@ == JsonView::Object(checked_answer(valid)),
{
    let mut body = JsonObject::new();
    body.put(
        "status",
        json::text_value(
            if valid {
                "success"
            } else {
                "error"
            },
        ),
    );
    body.put("valid", Json::Bool(valid));
    Json::Object(body)
}

/// The answer to a backup code.
pub fn backup_answer(valid: bool, remaining: usize) -> (r: Json)
    ensures
        r@ == JsonView::Object(
            checked_answer(valid).insert("remaining"@, JsonView::Int(remaining as int)),
        ),
{
    let mut body = JsonObject::new();
    body.put(
        "status",
        json::text_value(
            if valid {
                "success"
            } else {
                "error"
            },
        ),
    );
    body.put("valid", Json::Bool(valid));
    body.put("remaining", Json::Unsigned(remaining as u64));
    Json::Object(body)
}

/// The answer to a request for the one-time password secret.
pub fn totp_setup_answer(user: &str, secret: &str) -> (r: Json)
    ensures
        r@ == JsonView::Object(
            map![
                "status"@ => JsonView::Text("success"@),
                "user"@ => JsonView::Text(user@),
                "totp_secret"@ => JsonView::Text(secret@),
                "algorithm"@ => JsonView::Text("SHA1"@),
                "digits"@ => JsonView::Int(6),
                "period"@ => JsonView::Int(TOTP_PERIOD as int),
            ],
        ),
{
    let mut body = JsonObject::new();
    body.put("status", json::text_value("success"));
    body.put("user", json::text_value(user));
    body.put("totp_secret", json::text_value(secret));
    body.put("algorithm", json::text_value("SHA1"));
    body.put("digits", Json::Unsigned(6));
    body.put("period", Json::Unsigned(TOTP_PERIOD));
    Json::Object(body)
}

/// The answer that hands backup codes out.
pub fn backup_codes_answer(codes: &Vec<String>, user: &str) -> (r: Json)
    ensures
        r@ == JsonView::Object(
            map![
                "status"@ => JsonView::Text("success"@),
                "backup_codes"@ => json::texts_view(text::views(codes@)),
                "user"@ => JsonView::Text(user@),
            ],
        ),
{
    let mut body = JsonObject::new();
    body.put("status", json::text_value("success"));
    body.put("backup_codes", json::text_array(codes));
    body.put("user", json::text_value(user));
    Json::Object(body)
}

/// The answer that says how many backup codes are left.
pub fn remaining_answer(remaining: usize, user: &str) -> (r: Json)
    ensures
        r@ == JsonView::Object(
            map![
                "remaining"@ => JsonView::Int(remaining as int),
                "user"@ => JsonView::Text(user@),
            ],
        ),
{
    let mut body = JsonObject::new();
    body.put("remaining", Json::Unsigned(remaining as u64));
    body.put("user", json::text_value(user));
    Json::Object(body)
}

/// A one-time password is six digits.
pub proof fn law_passwords_are_six_digits(secret: Seq<u8>, counter: u64)
    ensures
        totp_of(secret, counter).len() == 6,
        text::is_digits(totp_of(secret, counter)),
{
    let digest = outside::hmac_sha1_of(secret, big_endian(counter))@;
    let n = truncated(digest);
    assert forall|i: int| 0 <= i < 6 implies text::is_digit(#[trigger] six_digits(n)[i]) by {
        assert(0 <= n / 100_000 % 10 < 10);
    }
}

/// The password of the present counter is accepted now and in the two periods
/// around it.
pub proof fn law_present_password_is_accepted(
    secret_hex: Seq<char>,
    secret: Seq<u8>,
    counter: u64,
)
    requires
        outside::hex_bytes(secret_hex) == Some(secret),
        0 < counter < u64::MAX,
    ensures
        totp_matches(secret_hex, totp_of(secret, counter), counter),
        totp_matches(secret_hex, totp_of(secret, counter), (counter - 1) as u64),
        totp_matches(secret_hex, totp_of(secret, counter), (counter + 1) as u64),
{
    assert(counter_before((counter + 1) as u64) == counter);
}

/// A used text is not in the list any more, and no other text is lost.
pub proof fn lemma_without(list: Seq<Seq<char>>, item: Seq<char>)
    ensures
        !without(list, item).contains(item),
        forall|other: Seq<char>|
            other != item ==> #[trigger] without(list, item).contains(other) == list.contains(other),
    decreases list.len(),
{
    if list.len() > 0 {
        lemma_without(list.drop_last(), item);
        let before = without(list.drop_last(), item);
        let after = without(list, item);
        if after.contains(item) {
            let k = choose|k: int| 0 <= k < after.len() && after[k] == item;
            if k < before.len() {
                assert(before[k] == item);
                assert(before.contains(item));
            }
        }
        assert forall|other: Seq<char>| other != item implies #[trigger] after.contains(other)
            == list.contains(other) by {
            if after.contains(other) {
                let k = choose|k: int| 0 <= k < after.len() && after[k] == other;
                if k < before.len() {
                    assert(before[k] == other);
                    assert(before.contains(other));
                    let m = choose|m: int| 0 <= m < list.drop_last().len() && list.drop_last()[m]
                        == other;
                    assert(list[m] == other);
                } else {
                    assert(list[list.len() - 1] == other);
                }
            }
            if list.contains(other) {
                let m = choose|m: int| 0 <= m < list.len() && list[m] == other;
                if m < list.len() - 1 {
                    assert(list.drop_last()[m] == other);
                    assert(before.contains(other));
                    let k = choose|k: int| 0 <= k < before.len() && before[k] == other;
                    assert(after[k] == other);
                } else {
                    assert(after[after.len() - 1] == other);
                }
            }
        }
    }
}

/// A backup code works once: once used, its hash is gone, and the codes with
/// other hashes still work.
pub proof fn law_backup_codes_work_once(
    hashes: Seq<Seq<char>>,
    code: Seq<char>,
    other: Seq<char>,
)
    ensures
        !without(hashes, hash_of(code)).contains(hash_of(code)),
        hash_of(other) != hash_of(code) ==> without(hashes, hash_of(code)).contains(
            hash_of(other),
        ) == hashes.contains(hash_of(other)),
{
    lemma_without(hashes, hash_of(code));
}

/// Every backup code that was handed out works while its hash is stored.
pub proof fn law_handed_out_codes_work(codes: Seq<Seq<char>>, i: int)
    requires
        0 <= i < codes.len(),
    ensures
        hashes_of(codes).contains(hash_of(codes[i])),
{
    assert(hashes_of(codes)[i] == hash_of(codes[i]));
}

} // verus!
