//! What challenges and second factors are owed: which tokens and codes are
//! accepted, for how long, and how often.
use vstd::prelude::*;
use crate::captcha;
use crate::captcha::CaptchaState;
use crate::json;
use crate::json::{Json, JsonView};
use crate::laws::answers::says;
use crate::mfa;
use crate::outside;
use crate::text;
use crate::text_laws;

verus! {

/// The challenge is solved by the word, trimmed and in whatever case.
pub proof fn law_the_word_solves_the_challenge(answer: Option<&str>, solved: bool)
    requires
        call_ensures(captcha::solved, (answer,), solved),
    ensures
        solved <==> (answer matches Some(word) && text::lower(text::trimmed(word@)) == "human"@),
{
    reveal_strlit("human");
    assert(text::lower("human"@) =~= "human"@);
}

/// A form is told by its content type, whatever parameters follow it.
pub proof fn law_forms_are_told_by_their_type(
    kind: Seq<char>,
    parameters: Seq<char>,
    plain: &str,
    full: &str,
    is_plain_form: bool,
    is_form: bool,
    is_absent_form: bool,
)
    requires
        !kind.contains(';'),
        plain@ == kind,
        full@ == kind + seq![';'] + parameters,
        call_ensures(captcha::is_form_content, (Some(plain),), is_plain_form),
        call_ensures(captcha::is_form_content, (Some(full),), is_form),
        call_ensures(captcha::is_form_content, (None,), is_absent_form),
    ensures
        is_plain_form <==> text::lower(text::trimmed(kind)) == "application/x-www-form-urlencoded"@,
        is_form == is_plain_form,
        !is_absent_form,
{
    reveal_strlit("application/x-www-form-urlencoded");
    assert(text::lower("application/x-www-form-urlencoded"@)
        =~= "application/x-www-form-urlencoded"@);
    text_laws::lemma_single_piece(kind, ';');
    text_laws::lemma_first_piece(kind, parameters, ';');
}

/// A token names when it expires and its nonce, and carries the code of both
/// under the secret; it is taken only with that code, only until then, and only
/// while its nonce waits with that expiry.
pub proof fn law_valid_tokens_carry_their_code(
    secret: Seq<u8>,
    issued: Map<Seq<char>, u64>,
    token: Seq<char>,
    now: u64,
)
    requires
        captcha::is_valid(secret, issued, token, now),
    ensures
        ({
            let parts = text::pieces(token, '.');
            &&& parts.len() == 3
            &&& parts[1].len() > 0
            &&& text::parsed_nat(parts[0], u64::MAX as nat) matches Some(expiry) && expiry >= now
                && issued.contains_key(parts[1]) && issued[parts[1]] == expiry
            &&& outside::hex_bytes(parts[2]) == Some(
                outside::hmac_sha256_of(
                    secret,
                    vstd::utf8::encode_utf8(parts[0] + "."@ + parts[1]),
                )@,
            )
        }),
{
}

/// A token that has expired is refused, and so is one that nobody issued.
pub proof fn law_expired_tokens_are_refused(
    secret: Seq<u8>,
    issued: Map<Seq<char>, u64>,
    expires_at: u64,
    nonce: Seq<char>,
    now: u64,
)
    requires
        nonce.len() > 0,
        !nonce.contains('.'),
    ensures
        now > expires_at ==> !captcha::is_valid(
            secret,
            issued,
            captcha::token_of(secret, expires_at, nonce),
            now,
        ),
        now <= expires_at ==> (captcha::is_valid(
            secret,
            issued,
            captcha::token_of(secret, expires_at, nonce),
            now,
        ) <==> issued.contains_pair(nonce, expires_at)),
{
    if now <= expires_at {
        captcha::law_issued_tokens_are_genuine(secret, expires_at, nonce, now);
    } else {
        captcha::lemma_token_pieces(secret, expires_at, nonce);
        text_laws::law_decimal_round_trip(expires_at as nat, u64::MAX as nat);
    }
}

/// An issued token waits until its time is over; issuing forgets what has expired
/// and nothing else.
pub proof fn law_issued_tokens_wait(
    issued: Map<Seq<char>, u64>,
    nonce: Seq<char>,
    other: Seq<char>,
    now: u64,
    ttl: u64,
)
    requires
        other != nonce,
    ensures
        ({
            let after = captcha::issued_after(issued, nonce, now, ttl);
            &&& now + ttl <= u64::MAX ==> after.contains_pair(nonce, (now + ttl) as u64)
            &&& now + ttl > u64::MAX ==> after.contains_pair(nonce, u64::MAX)
            &&& after.contains_key(other) <==> issued.contains_key(other) && issued[other] >= now
            &&& after.contains_key(other) ==> after[other] == issued[other]
        }),
{
}

/// Verifying a token forgets its nonce, and nothing else.
pub proof fn law_verified_tokens_are_forgotten(
    secret: Seq<u8>,
    issued: Map<Seq<char>, u64>,
    expires_at: u64,
    nonce: Seq<char>,
    other: Seq<char>,
    now: u64,
)
    requires
        nonce.len() > 0,
        !nonce.contains('.'),
        now <= expires_at,
        other != nonce,
    ensures
        ({
            let after = captcha::issued_without(
                secret,
                issued,
                captcha::token_of(secret, expires_at, nonce),
                now,
            );
            &&& !after.contains_key(nonce)
            &&& after.contains_key(other) <==> issued.contains_key(other)
            &&& issued.contains_key(other) ==> after[other] == issued[other]
        }),
{
    captcha::law_issued_tokens_are_genuine(secret, expires_at, nonce, now);
}

/// A token is written as its expiry, its nonce and its code, parted by dots.
pub proof fn law_tokens_are_written(
    secret: Vec<u8>,
    bytes: &[u8],
    expires_at: u64,
    nonce: Seq<char>,
    payload: &str,
    code: String,
)
    requires
        bytes@ == secret@,
        payload@ == text::decimal(expires_at as nat) + "."@ + nonce,
        call_ensures(captcha::sign, (bytes, payload), code),
    ensures
        captcha::token_of(secret@, expires_at, nonce) == payload@ + "."@ + code@,
        code@ == outside::hex_text(
            outside::hmac_sha256_of(secret@, vstd::utf8::encode_utf8(payload@))@,
        ),
{
}

/// A token lives for five minutes, or for as long as set between half a minute
/// and an hour; the secret is the configured one where it is not blank.
pub proof fn law_challenges_are_configured(
    secret: &str,
    seconds: u64,
    ttl: &str,
    configured: CaptchaState,
    plain: CaptchaState,
)
    requires
        ttl@ == text::decimal(seconds as nat),
        call_ensures(CaptchaState::from_settings, (Some(secret), Some(ttl)), configured),
        call_ensures(CaptchaState::from_settings, (None, None), plain),
    ensures
        text::trimmed(secret@).len() > 0 ==> configured.secret() == vstd::utf8::encode_utf8(
            secret@,
        ),
        configured.ttl() == (if seconds < 30 {
            30u64
        } else if seconds > 3_600 {
            3_600u64
        } else {
            seconds
        }),
        plain.ttl() == 300,
        forall|nonce: Seq<char>| !(#[trigger] configured.issued().contains_key(nonce)),
{
    text_laws::lemma_decimal_digits(seconds as nat);
    assert(text::is_digit(ttl@[0]));
}

/// What tells these names apart.
proof fn lemma_captcha_names_differ()
    ensures
        "success"@.len() == 7,
        "token"@.len() == 5,
{
    reveal_strlit("success");
    reveal_strlit("token");
}

/// A solved challenge is answered with the token, and any other with none.
pub proof fn law_solved_challenges_get_a_token(token: Seq<char>)
    ensures
        json::member(captcha::solve_answer(Some(token)), "success"@) == Some(JsonView::Bool(true)),
        says(captcha::solve_answer(Some(token)), "token"@, token),
        json::member(captcha::solve_answer(None), "success"@) == Some(JsonView::Bool(false)),
        json::member(captcha::solve_answer(None), "token"@) == Some(JsonView::Null),
{
    lemma_captcha_names_differ();
}

/// A one-time password is taken exactly where it is that of the present period,
/// of the one before or of the one after.
pub proof fn law_passwords_of_three_periods_are_taken(
    secret_hex: &str,
    secret: &[u8],
    code: &str,
    counter: u64,
    before: String,
    present: String,
    after: String,
    taken: bool,
)
    requires
        0 < counter < u64::MAX,
        outside::hex_bytes(secret_hex@) == Some(secret@),
        call_ensures(mfa::totp_code, (secret, (counter - 1) as u64), before),
        call_ensures(mfa::totp_code, (secret, counter), present),
        call_ensures(mfa::totp_code, (secret, (counter + 1) as u64), after),
        call_ensures(mfa::verify_totp_at, (secret_hex, code, counter), taken),
    ensures
        taken <==> code@ == before@ || code@ == present@ || code@ == after@,
{
}

/// A secret that is no hexadecimal text takes no password.
pub proof fn law_unreadable_secrets_take_nothing(
    secret_hex: &str,
    code: &str,
    counter: u64,
    taken: bool,
)
    requires
        counter < u64::MAX,
        outside::hex_bytes(secret_hex@) is None,
        call_ensures(mfa::verify_totp_at, (secret_hex, code, counter), taken),
    ensures
        !taken,
{
}

/// A one-time password is the six digits of the truncated HMAC-SHA1 of the
/// counter in eight bytes, the highest first: the 31 low bits of the four bytes
/// at the place that the last half byte names.
pub proof fn law_passwords_follow_the_counter(
    secret: &[u8],
    counter: u64,
    bytes: Seq<u8>,
    place: int,
    code: String,
)
    requires
        bytes.len() == 8,
        counter == bytes[0] * 0x100_0000_0000_0000 + bytes[1] * 0x1_0000_0000_0000 + bytes[2]
            * 0x100_0000_0000 + bytes[3] * 0x1_0000_0000 + bytes[4] * 0x100_0000 + bytes[5]
            * 0x1_0000 + bytes[6] * 0x100 + bytes[7],
        place == outside::hmac_sha1_of(secret@, bytes)@[19] % 16,
        call_ensures(mfa::totp_code, (secret, counter), code),
    ensures
        ({
            let digest = outside::hmac_sha1_of(secret@, bytes)@;
            let number = (digest[place] % 128) * 0x100_0000 + digest[place + 1] * 0x1_0000
                + digest[place + 2] * 0x100 + digest[place + 3];
            &&& code@.len() == 6
            &&& text::is_digits(code@)
            &&& text::digits_value(code@) == number % 1_000_000
        }),
{
    lemma_counter_bytes(counter, bytes);
    let digest = outside::hmac_sha1_of(secret@, bytes)@;
    let number = (digest[place] % 128) * 0x100_0000 + digest[place + 1] * 0x1_0000 + digest[place
        + 2] * 0x100 + digest[place + 3];
    assert(mfa::truncated(digest) == number);
    mfa::law_passwords_are_six_digits(secret@, counter);
    lemma_six_digits(number);
}

/// A counter is written in eight bytes in one way.
proof fn lemma_counter_bytes(counter: u64, bytes: Seq<u8>)
    requires
        bytes.len() == 8,
        counter == bytes[0] * 0x100_0000_0000_0000 + bytes[1] * 0x1_0000_0000_0000 + bytes[2]
            * 0x100_0000_0000 + bytes[3] * 0x1_0000_0000 + bytes[4] * 0x100_0000 + bytes[5]
            * 0x1_0000 + bytes[6] * 0x100 + bytes[7],
    ensures
        mfa::big_endian(counter) == bytes,
{
    let n = counter as int;
    let b0 = bytes[0] as int;
    let b1 = bytes[1] as int;
    let b2 = bytes[2] as int;
    let b3 = bytes[3] as int;
    let b4 = bytes[4] as int;
    let b5 = bytes[5] as int;
    let b6 = bytes[6] as int;
    let b7 = bytes[7] as int;
    lemma_byte(
        n,
        0,
        b0,
        b1 * 0x1_0000_0000_0000 + b2 * 0x100_0000_0000 + b3 * 0x1_0000_0000 + b4 * 0x100_0000 + b5 * 0x1_0000 + b6 * 0x100 + b7,
        0x100_0000_0000_0000,
    );
    lemma_byte(
        n,
        b0,
        b1,
        b2 * 0x100_0000_0000 + b3 * 0x1_0000_0000 + b4 * 0x100_0000 + b5 * 0x1_0000 + b6 * 0x100 + b7,
        0x1_0000_0000_0000,
    );
    lemma_byte(
        n,
        b0 * 0x100 + b1,
        b2,
        b3 * 0x1_0000_0000 + b4 * 0x100_0000 + b5 * 0x1_0000 + b6 * 0x100 + b7,
        0x100_0000_0000,
    );
    lemma_byte(
        n,
        b0 * 0x1_0000 + b1 * 0x100 + b2,
        b3,
        b4 * 0x100_0000 + b5 * 0x1_0000 + b6 * 0x100 + b7,
        0x1_0000_0000,
    );
    lemma_byte(
        n,
        b0 * 0x100_0000 + b1 * 0x1_0000 + b2 * 0x100 + b3,
        b4,
        b5 * 0x1_0000 + b6 * 0x100 + b7,
        0x100_0000,
    );
    lemma_byte(
        n,
        b0 * 0x1_0000_0000 + b1 * 0x100_0000 + b2 * 0x1_0000 + b3 * 0x100 + b4,
        b5,
        b6 * 0x100 + b7,
        0x1_0000,
    );
    lemma_byte(
        n,
        b0 * 0x100_0000_0000 + b1 * 0x1_0000_0000 + b2 * 0x100_0000 + b3 * 0x1_0000 + b4 * 0x100 + b5,
        b6,
        b7,
        0x100,
    );
    lemma_byte(
        n,
        b0 * 0x1_0000_0000_0000 + b1 * 0x100_0000_0000 + b2 * 0x1_0000_0000 + b3 * 0x100_0000 + b4 * 0x1_0000 + b5 * 0x100 + b6,
        b7,
        0,
        1,
    );
    assert(n / 0x100_0000_0000_0000 == b0);
    let written = mfa::big_endian(counter);
    assert(written[0] == bytes[0]);
    assert(written[1] == bytes[1]);
    assert(written[2] == bytes[2]);
    assert(written[3] == bytes[3]);
    assert(written[4] == bytes[4]);
    assert(written[5] == bytes[5]);
    assert(written[6] == bytes[6]);
    assert(written[7] == bytes[7]);
    assert(written =~= bytes);
}

/// A byte of a number is what is left of it above its unit.
proof fn lemma_byte(n: int, above: int, byte: int, below: int, unit: int)
    requires
        unit > 0,
        n == (above * 256 + byte) * unit + below,
        0 <= below < unit,
        0 <= byte < 256,
    ensures
        n / unit % 256 == byte,
        n / unit == above * 256 + byte,
{
    vstd::arithmetic::div_mod::lemma_fundamental_div_mod_converse(
        n,
        unit,
        above * 256 + byte,
        below,
    );
    vstd::arithmetic::div_mod::lemma_fundamental_div_mod_converse(
        above * 256 + byte,
        256,
        above,
        byte,
    );
}

/// Six digits write what is left of a number below a million.
proof fn lemma_six_digits(number: int)
    requires
        number >= 0,
    ensures
        text::digits_value(mfa::six_digits(number)) == number % 1_000_000,
{
    let s = mfa::six_digits(number);
    assert(s.drop_last() =~= seq![s[0], s[1], s[2], s[3], s[4]]);
    assert(s.drop_last().drop_last() =~= seq![s[0], s[1], s[2], s[3]]);
    assert(s.drop_last().drop_last().drop_last() =~= seq![s[0], s[1], s[2]]);
    assert(s.drop_last().drop_last().drop_last().drop_last() =~= seq![s[0], s[1]]);
    assert(s.drop_last().drop_last().drop_last().drop_last().drop_last() =~= seq![s[0]]);
    assert(s.drop_last().drop_last().drop_last().drop_last().drop_last().drop_last()
        =~= Seq::<char>::empty());
    assert(s[0] as int - 48 == number / 100_000 % 10);
    assert(s[1] as int - 48 == number / 10_000 % 10);
    assert(s[2] as int - 48 == number / 1_000 % 10);
    assert(s[3] as int - 48 == number / 100 % 10);
    assert(s[4] as int - 48 == number / 10 % 10);
    assert(s[5] as int - 48 == number % 10);
    reveal_with_fuel(text::digits_value, 7);
    lemma_low_digits(number);
}

/// The six low digits of a number make up its rest.
proof fn lemma_low_digits(n: int)
    requires
        n >= 0,
    ensures
        n % 1_000_000 == n / 100_000 % 10 * 100_000 + n / 10_000 % 10 * 10_000 + n / 1_000 % 10
            * 1_000 + n / 100 % 10 * 100 + n / 10 % 10 * 10 + n % 10,
{
    assert(n / 10 / 10 == n / 100);
    assert(n / 100 / 10 == n / 1_000);
    assert(n / 1_000 / 10 == n / 10_000);
    assert(n / 10_000 / 10 == n / 100_000);
    assert(n / 100_000 / 10 == n / 1_000_000);
}

/// A backup code is taken exactly where its hash is stored; then that hash is
/// gone and every other stays.
pub proof fn law_backup_codes_are_used_up(
    hashes: Vec<String>,
    code: &str,
    hash: String,
    used: (bool, Vec<String>),
    other: Seq<char>,
)
    requires
        call_ensures(mfa::hash_secret, (code,), hash),
        call_ensures(mfa::use_backup_code, (&hashes, code), used),
    ensures
        used.0 <==> text::views(hashes@).contains(hash@),
        !text::views(used.1@).contains(hash@),
        other != hash@ ==> (text::views(used.1@).contains(other) <==> text::views(
            hashes@,
        ).contains(other)),
{
    mfa::lemma_without(text::views(hashes@), hash@);
}

/// A secret is stored as its SHA-256 digest in hexadecimal digits.
pub proof fn law_secrets_are_stored_hashed(
    value: &str,
    hash: String,
    codes: Vec<String>,
    hashes: Vec<String>,
    i: int,
)
    requires
        call_ensures(mfa::hash_secret, (value,), hash),
        call_ensures(mfa::hash_all, (&codes,), hashes),
        0 <= i < codes@.len(),
    ensures
        hash@ == outside::hex_text(outside::sha256_of(vstd::utf8::encode_utf8(value@))@),
        hashes@.len() == codes@.len(),
        hashes@[i]@ == outside::hex_text(
            outside::sha256_of(vstd::utf8::encode_utf8(codes@[i]@))@,
        ),
{
    assert(text::views(hashes@).len() == hashes@.len());
    assert(text::views(hashes@)[i] == hashes@[i]@);
    assert(text::views(codes@)[i] == codes@[i]@);
}

/// Ten backup codes of eight hexadecimal digits are handed out, and their hashes
/// are what is stored.
pub proof fn law_backup_codes_are_handed_out(made: (Vec<String>, Vec<String>), i: int)
    requires
        call_ensures(mfa::new_backup_codes, (), made),
        0 <= i < 10,
    ensures
        made.0@.len() == 10,
        made.1@.len() == 10,
        made.0@[i]@.len() == 8,
        made.1@[i]@ == outside::hex_text(
            outside::sha256_of(vstd::utf8::encode_utf8(made.0@[i]@))@,
        ),
{
    assert(mfa::is_token(made.0@[i]@, 4));
    assert(text::views(made.1@).len() == made.1@.len());
    assert(text::views(made.1@)[i] == made.1@[i]@);
    assert(text::views(made.0@)[i] == made.0@[i]@);
}

/// The administrator is whom the request names, else the configured one, else
/// `admin`.
pub proof fn law_administrators_are_named(
    user: Option<&str>,
    configured: Option<&str>,
    name: String,
)
    requires
        call_ensures(mfa::admin_user, (user, configured), name),
    ensures
        ({
            let named = user matches Some(word) && text::trimmed(word@).len() > 0;
            &&& named ==> name@ == user->0@
            &&& !named ==> (configured matches Some(word) ==> name@ == word@)
            &&& !named && configured is None ==> name@ == "admin"@
        }),
{
}

/// What tells these names apart.
proof fn lemma_mfa_names_differ()
    ensures
        "status"@.len() == 6,
        "valid"@.len() == 5,
        "remaining"@.len() == 9,
        "user"@.len() == 4,
        "totp_secret"@.len() == 11,
        "algorithm"@.len() == 9,
        "digits"@.len() == 6,
        "period"@.len() == 6,
        "backup_codes"@.len() == 12,
        "status"@[0] == 's',
        "digits"@[0] == 'd',
        "period"@[0] == 'p',
        "remaining"@[0] == 'r',
        "algorithm"@[0] == 'a',
{
    reveal_strlit("status");
    reveal_strlit("valid");
    reveal_strlit("remaining");
    reveal_strlit("user");
    reveal_strlit("totp_secret");
    reveal_strlit("algorithm");
    reveal_strlit("digits");
    reveal_strlit("period");
    reveal_strlit("backup_codes");
}

/// A checked code is answered with whether it was valid.
pub proof fn law_checked_codes_are_answered(
    valid: bool,
    remaining: usize,
    totp: Json,
    backup: Json,
)
    requires
        call_ensures(mfa::totp_answer, (valid,), totp),
        call_ensures(mfa::backup_answer, (valid, remaining), backup),
    ensures
        json::member(totp@, "valid"@) == Some(JsonView::Bool(valid)),
        json::member(backup@, "valid"@) == Some(JsonView::Bool(valid)),
        json::member(backup@, "remaining"@) == Some(JsonView::Int(remaining as int)),
        valid ==> says(totp@, "status"@, "success"@) && says(backup@, "status"@, "success"@),
        !valid ==> says(totp@, "status"@, "error"@) && says(backup@, "status"@, "error"@),
{
    lemma_mfa_names_differ();
}

/// A second factor is set up with what the user needs to make its codes.
pub proof fn law_second_factors_are_set_up(
    user: &str,
    secret: &str,
    codes: Vec<String>,
    remaining: usize,
    totp: Json,
    backup: Json,
    left: Json,
)
    requires
        call_ensures(mfa::totp_setup_answer, (user, secret), totp),
        call_ensures(mfa::backup_codes_answer, (&codes, user), backup),
        call_ensures(mfa::remaining_answer, (remaining, user), left),
    ensures
        says(totp@, "status"@, "success"@),
        says(totp@, "user"@, user@),
        says(totp@, "totp_secret"@, secret@),
        says(totp@, "algorithm"@, "SHA1"@),
        json::member(totp@, "digits"@) == Some(JsonView::Int(6)),
        json::member(totp@, "period"@) == Some(JsonView::Int(30)),
        says(backup@, "status"@, "success"@),
        says(backup@, "user"@, user@),
        json::member(backup@, "backup_codes"@) == Some(json::texts_view(text::views(codes@))),
        says(left@, "user"@, user@),
        json::member(left@, "remaining"@) == Some(JsonView::Int(remaining as int)),
{
    lemma_mfa_names_differ();
}

/// In the first period of all the password of that period and of the next are
/// taken.
pub proof fn law_passwords_of_the_first_period(
    secret_hex: &str,
    secret: &[u8],
    code: &str,
    present: String,
    after: String,
    taken: bool,
)
    requires
        outside::hex_bytes(secret_hex@) == Some(secret@),
        call_ensures(mfa::totp_code, (secret, 0), present),
        call_ensures(mfa::totp_code, (secret, 1), after),
        call_ensures(mfa::verify_totp_at, (secret_hex, code, 0), taken),
    ensures
        taken <==> code@ == present@ || code@ == after@,
{
}

} // verus!
