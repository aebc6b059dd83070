//! What reading is owed: case, white space, pieces and numbers of a text, the
//! order of texts, and the networks that addresses lie in.
use vstd::prelude::*;
use crate::audit;
use crate::auth;
use crate::ip;
use crate::ip::{IpAddress, IpView};
use crate::ip_laws;
use crate::json::Json;
use crate::order;
use crate::outside;
use crate::text;
use crate::text_laws;

verus! {

/// Case is that of the letters from A to Z, one for one; every other character
/// stays as it is.
pub proof fn law_letters_have_two_cases(s: &str, small: String, large: String, i: int)
    requires
        call_ensures(text::to_lower, (s,), small),
        call_ensures(text::to_upper, (s,), large),
        0 <= i < s@.len(),
    ensures
        small@.len() == s@.len(),
        large@.len() == s@.len(),
        'A' <= s@[i] <= 'Z' ==> small@[i] as int == s@[i] as int + 32 && large@[i] == s@[i],
        'a' <= s@[i] <= 'z' ==> large@[i] as int == s@[i] as int - 32 && small@[i] == s@[i],
        !('A' <= s@[i] <= 'Z') && !('a' <= s@[i] <= 'z') ==> small@[i] == s@[i] && large@[i]
            == s@[i],
{
}

/// Two texts are the same but for case where they are in small letters.
pub proof fn law_case_makes_no_difference(
    a: &str,
    b: &str,
    small_a: String,
    small_b: String,
    same: bool,
)
    requires
        call_ensures(text::to_lower, (a,), small_a),
        call_ensures(text::to_lower, (b,), small_b),
        call_ensures(text::eq_ignoring_case, (a, b), same),
    ensures
        same <==> small_a@ == small_b@,
        a@ == b@ ==> same,
{
}

/// The character is white space.
pub open spec fn is_white(c: char) -> bool {
    let n = c as int;
    ||| 9 <= n <= 13
    ||| n == 32 || n == 0x85 || n == 0xa0 || n == 0x1680
    ||| 0x2000 <= n <= 0x200a
    ||| n == 0x2028 || n == 0x2029 || n == 0x202f || n == 0x205f || n == 0x3000
}

/// White space is what Unicode calls so.
pub proof fn law_white_space(c: char, white: bool)
    requires
        call_ensures(text::white_space, (c,), white),
    ensures
        white <==> is_white(c),
{
}

/// A text is trimmed of the white space around it, and of nothing else.
pub proof fn law_texts_are_trimmed(
    s: &str,
    before: Seq<char>,
    core: Seq<char>,
    after: Seq<char>,
    trimmed: String,
    blank: bool,
)
    requires
        s@ == before + core + after,
        forall|i: int| 0 <= i < before.len() ==> is_white(#[trigger] before[i]),
        forall|i: int| 0 <= i < after.len() ==> is_white(#[trigger] after[i]),
        core.len() > 0 ==> !is_white(core[0]) && !is_white(core[core.len() - 1]),
        core.len() == 0 ==> after.len() == 0,
        call_ensures(text::trim, (s,), trimmed),
        call_ensures(text::blank, (s,), blank),
    ensures
        trimmed@ == core,
        blank <==> core.len() == 0,
{
    lemma_trimmed_start(before, core + after);
    assert(before + (core + after) =~= s@);
    lemma_trimmed_end(core, after);
    if core.len() == 0 {
        assert(core + after =~= Seq::<char>::empty());
    }
}

/// White space at the start goes.
proof fn lemma_trimmed_start(before: Seq<char>, rest: Seq<char>)
    requires
        forall|i: int| 0 <= i < before.len() ==> is_white(#[trigger] before[i]),
        rest.len() > 0 ==> !is_white(rest[0]),
    ensures
        text::trimmed_start(before + rest) == rest,
    decreases before.len(),
{
    let whole = before + rest;
    if before.len() == 0 {
        assert(whole =~= rest);
    } else {
        assert(whole[0] == before[0]);
        assert(whole.drop_first() =~= before.drop_first() + rest);
        lemma_trimmed_start(before.drop_first(), rest);
    }
}

/// White space at the end goes.
proof fn lemma_trimmed_end(core: Seq<char>, after: Seq<char>)
    requires
        forall|i: int| 0 <= i < after.len() ==> is_white(#[trigger] after[i]),
        core.len() > 0 ==> !is_white(core[core.len() - 1]),
    ensures
        text::trimmed_end(core + after) == core,
    decreases after.len(),
{
    let whole = core + after;
    if after.len() == 0 {
        assert(whole =~= core);
    } else {
        assert(whole.last() == after[after.len() - 1]);
        assert(whole.drop_last() =~= core + after.drop_last());
        lemma_trimmed_end(core, after.drop_last());
    }
}

/// A text is split at each separator: the first piece is what stands before it,
/// and the others are the pieces of the rest.
pub proof fn law_texts_are_split(
    s: &str,
    first: Seq<char>,
    rest: &str,
    separator: char,
    pieces: Vec<String>,
    rest_pieces: Vec<String>,
)
    requires
        !first.contains(separator),
        call_ensures(text::split_on, (s, separator), pieces),
        call_ensures(text::split_on, (rest, separator), rest_pieces),
    ensures
        s@ == first ==> text::views(pieces@) == seq![first],
        s@ == first + seq![separator] + rest@ ==> text::views(pieces@) == seq![first]
            + text::views(rest_pieces@),
{
    text_laws::lemma_single_piece(first, separator);
    lemma_pieces_of_rest(first, rest@, separator);
}

/// The pieces behind the first are those of the rest.
pub proof fn lemma_pieces_of_rest(first: Seq<char>, rest: Seq<char>, separator: char)
    requires
        !first.contains(separator),
    ensures
        text::pieces(first + seq![separator] + rest, separator) == seq![first] + text::pieces(
            rest,
            separator,
        ),
    decreases rest.len(),
{
    let whole = first + seq![separator] + rest;
    if rest.len() == 0 {
        text_laws::lemma_single_piece(first, separator);
        assert(whole.drop_last() =~= first);
        assert(whole.last() == separator);
        assert(text::pieces(whole, separator) =~= seq![first] + text::pieces(rest, separator));
    } else {
        lemma_pieces_of_rest(first, rest.drop_last(), separator);
        text_laws::lemma_pieces(rest.drop_last(), separator);
        assert(whole.drop_last() =~= first + seq![separator] + rest.drop_last());
        assert(whole.last() == rest.last());
        assert(text::pieces(whole, separator) =~= seq![first] + text::pieces(rest, separator));
    }
}

/// Texts are joined with the separator between each two.
pub proof fn law_texts_are_joined(
    parts: Vec<String>,
    last: String,
    more: Vec<String>,
    separator: &str,
    joined: String,
    more_joined: String,
)
    requires
        more@ == parts@.push(last),
        call_ensures(text::join, (&parts, separator), joined),
        call_ensures(text::join, (&more, separator), more_joined),
    ensures
        parts@.len() == 0 ==> joined@.len() == 0 && more_joined@ == last@,
        parts@.len() > 0 ==> more_joined@ == joined@ + separator@ + last@,
{
    let a = text::views(parts@);
    let b = text::views(more@);
    assert(b.drop_last() =~= a);
    assert(b.last() == last@);
    assert(a.len() == parts@.len());
}

/// A needle is found in a text exactly where the text is something, the needle
/// and something.
pub proof fn law_needles_are_found(
    s: &str,
    needle: &str,
    front: Seq<char>,
    back: Seq<char>,
    found: bool,
)
    requires
        call_ensures(text::contains, (s, needle), found),
    ensures
        s@ == front + needle@ + back ==> found,
        found ==> exists|at: int|
            0 <= at <= s@.len() - needle@.len() && s@ == #[trigger] s@.take(at) + needle@ + s@.skip(
                at + needle@.len(),
            ),
{
    if s@ == front + needle@ + back {
        let at = front.len() as int;
        assert(s@.subrange(at, at + needle@.len() as int) =~= needle@);
        assert(text::stands_at(needle@, s@, at));
    }
    if found {
        let at = choose|at: int| #[trigger] text::stands_at(needle@, s@, at);
        assert(s@ =~= s@.take(at) + needle@ + s@.skip(at + needle@.len()));
    }
}

/// A prefix is what a text begins with, and is taken off it; a suffix is what it
/// ends with.
pub proof fn law_prefixes_and_suffixes(
    s: &str,
    part: &str,
    rest: Seq<char>,
    starts: bool,
    ends: bool,
    stripped: Option<String>,
)
    requires
        call_ensures(text::starts_with, (s, part), starts),
        call_ensures(text::ends_with, (s, part), ends),
        call_ensures(text::strip_prefix, (s, part), stripped),
    ensures
        s@ == part@ + rest ==> starts && (stripped matches Some(found) && found@ == rest),
        s@ == rest + part@ ==> ends,
        starts ==> s@ == part@ + s@.skip(part@.len() as int),
        ends ==> s@ == s@.take(s@.len() - part@.len()) + part@,
        !starts ==> stripped is None,
{
    if s@ == part@ + rest {
        assert(s@.take(part@.len() as int) =~= part@);
        assert(s@.skip(part@.len() as int) =~= rest);
        assert(part@.is_prefix_of(s@));
    }
    if s@ == rest + part@ {
        assert(s@.skip(rest.len() as int) =~= part@);
        assert(part@.is_suffix_of(s@));
    }
    if starts {
        assert(s@ =~= part@ + s@.skip(part@.len() as int));
    }
    if ends {
        assert(s@ =~= s@.take(s@.len() - part@.len()) + part@);
    }
}

/// Characters are counted one by one.
pub proof fn law_characters_are_counted(
    s: &str,
    more: &str,
    c: char,
    wanted: char,
    count: usize,
    more_count: usize,
)
    requires
        more@ == s@.push(c),
        call_ensures(text::count_char, (s, wanted), count),
        call_ensures(text::count_char, (more, wanted), more_count),
    ensures
        c == wanted ==> more_count == count + 1,
        c != wanted ==> more_count == count,
        s@.len() == 0 ==> count == 0,
{
    assert(more@.drop_last() =~= s@);
    assert(more@.last() == c);
}

/// A number is read as it is written, with or without a plus, up to the largest
/// that is wanted; nothing else is a number.
pub proof fn law_numbers_are_read(
    n: u64,
    plain: &str,
    signed: &str,
    max: u64,
    read: Option<u64>,
    read_signed: Option<u64>,
    written: String,
)
    requires
        call_ensures(text::u64_text, (n,), written),
        plain@ == written@,
        signed@ == seq!['+'] + written@,
        call_ensures(text::parse_nat, (plain, max), read),
        call_ensures(text::parse_nat, (signed, max), read_signed),
    ensures
        n <= max ==> read == Some(n) && read_signed == Some(n),
        n > max ==> read is None && read_signed is None,
{
    text_laws::lemma_decimal_digits(n as nat);
    assert(text::is_digit(written@[0]));
    assert(signed@.drop_first() =~= written@);
}

/// A text that holds anything but digits behind its sign is no number, and
/// neither is an empty one.
pub proof fn law_only_digits_are_numbers(s: &str, max: u64, i: int, read: Option<u64>, signed: Option<i64>)
    requires
        call_ensures(text::parse_nat, (s, max), read),
        call_ensures(text::parse_i64, (s,), signed),
        s@.len() > 0 ==> 0 <= i < s@.len() && !text::is_digit(s@[i]) && (i > 0 || (s@[0] != '+'
            && s@[0] != '-')),
    ensures
        read is None,
        signed is None,
{
    if s@.len() > 0 {
        let plain = text::without_sign(s@, '+');
        if plain.len() < s@.len() {
            assert(plain[i - 1] == s@[i]);
        } else {
            assert(plain[i] == s@[i]);
        }
        if s@[0] == '-' {
            assert(s@.drop_first()[i - 1] == s@[i]);
        }
    }
}

/// A whole number is read as it is written.
pub proof fn law_signed_numbers_are_read(n: i64, s: &str, written: String, read: Option<i64>)
    requires
        call_ensures(text::i64_text, (n,), written),
        s@ == written@,
        call_ensures(text::parse_i64, (s,), read),
    ensures
        read == Some(n),
        n < 0 ==> written@[0] == '-',
{
    text_laws::law_signed_decimal_round_trip(n);
}

/// Texts are ordered by the first character in which they differ; what another
/// text begins with comes before it.
pub proof fn law_texts_are_ordered(
    a: &str,
    b: &str,
    common: Seq<char>,
    x: char,
    y: char,
    rest_a: Seq<char>,
    rest_b: Seq<char>,
    before: bool,
)
    requires
        call_ensures(order::comes_before, (a, b), before),
        x != y,
    ensures
        a@ == common + seq![x] + rest_a && b@ == common + seq![y] + rest_b ==> (before <==> (
        x as int) < (y as int)),
        a@ == common && b@ == common + seq![y] + rest_b ==> before,
        a@ == b@ ==> !before,
{
    lemma_first_difference(common, seq![x] + rest_a, seq![y] + rest_b);
    assert(common + (seq![x] + rest_a) =~= common + seq![x] + rest_a);
    assert(common + (seq![y] + rest_b) =~= common + seq![y] + rest_b);
    lemma_first_difference(common, Seq::empty(), seq![y] + rest_b);
    assert(common + Seq::<char>::empty() =~= common);
    order::lemma_text_total(a@, b@);
}

/// A common beginning does not decide.
proof fn lemma_first_difference(common: Seq<char>, a: Seq<char>, b: Seq<char>)
    ensures
        order::text_before(common + a, common + b) == order::text_before(a, b),
    decreases common.len(),
{
    if common.len() == 0 {
        assert(common + a =~= a);
        assert(common + b =~= b);
    } else {
        assert((common + a)[0] == common[0]);
        assert((common + b)[0] == common[0]);
        assert((common + a).drop_first() =~= common.drop_first() + a);
        assert((common + b).drop_first() =~= common.drop_first() + b);
        lemma_first_difference(common.drop_first(), a, b);
    }
}

/// The newest events are shown first, each once, and as many as asked for.
pub proof fn law_newest_events_come_first(
    stamps: Vec<i128>,
    limit: i64,
    shown: Vec<usize>,
    a: int,
    b: int,
)
    requires
        call_ensures(audit::newest_events, (&stamps, limit), shown),
        1 <= limit <= 10_000,
        0 <= a < b < shown@.len(),
    ensures
        shown@.len() == (if stamps@.len() <= limit {
            stamps@.len() as int
        } else {
            limit as int
        }),
        shown@[a] < stamps@.len(),
        shown@[b] < stamps@.len(),
        shown@[a] != shown@[b],
        stamps@[shown@[a] as int] >= stamps@[shown@[b] as int],
{
    let places = order::places(shown@);
    let wanted = if stamps@.len() <= limit {
        stamps@.len() as int
    } else {
        limit as int
    };
    let ranking = choose|ranking: Seq<int>| #[trigger]
        order::is_arrangement(ranking, stamps@.len()) && order::newest_first(stamps@, ranking)
            && places == ranking.take(wanted);
    assert(places.len() == shown@.len());
    assert(places[a] == shown@[a] as int);
    assert(places[b] == shown@[b] as int);
    assert(places[a] == ranking[a]);
    assert(places[b] == ranking[b]);
    assert(order::newer(stamps@, ranking[a], ranking[b]));
}

/// A body is signed by its HMAC-SHA256 under the secret, in hexadecimal digits,
/// and by nothing else.
pub proof fn law_signatures_are_compared(
    secret: &str,
    body: &[u8],
    signature: &str,
    a: &[u8],
    b: &[u8],
    verified: bool,
    same: bool,
)
    requires
        call_ensures(auth::verify_hmac_sha256, (secret, body, signature), verified),
        call_ensures(auth::constant_time_eq, (a, b), same),
    ensures
        verified <==> signature@ == outside::hex_text(
            outside::hmac_sha256_of(vstd::utf8::encode_utf8(secret@), body@)@,
        ),
        same <==> a@ == b@,
{
}

/// A token is verified exactly where it can be decoded.
pub proof fn law_verified_tokens_are_decoded(
    token: &str,
    secret: &str,
    now: i64,
    verified: bool,
    claims: Option<Json>,
)
    requires
        call_ensures(auth::verify_hs256_jwt_at, (token, secret, now), verified),
        call_ensures(auth::decode_hs256_jwt_at, (token, secret, now), claims),
    ensures
        verified <==> claims is Some,
{
}

/// Two bytes are the same where all their bits are.
proof fn lemma_same_byte(a: u8, b: u8)
    requires
        (a >> 7u8) & 1u8 == 1u8 <==> (b >> 7u8) & 1u8 == 1u8,
        (a >> 6u8) & 1u8 == 1u8 <==> (b >> 6u8) & 1u8 == 1u8,
        (a >> 5u8) & 1u8 == 1u8 <==> (b >> 5u8) & 1u8 == 1u8,
        (a >> 4u8) & 1u8 == 1u8 <==> (b >> 4u8) & 1u8 == 1u8,
        (a >> 3u8) & 1u8 == 1u8 <==> (b >> 3u8) & 1u8 == 1u8,
        (a >> 2u8) & 1u8 == 1u8 <==> (b >> 2u8) & 1u8 == 1u8,
        (a >> 1u8) & 1u8 == 1u8 <==> (b >> 1u8) & 1u8 == 1u8,
        (a >> 0u8) & 1u8 == 1u8 <==> (b >> 0u8) & 1u8 == 1u8,
    ensures
        a == b,
{
    assert(((a >> 7u8) & 1u8 == 1u8 <==> (b >> 7u8) & 1u8 == 1u8) && ((a >> 6u8) & 1u8 == 1u8
        <==> (b >> 6u8) & 1u8 == 1u8) && ((a >> 5u8) & 1u8 == 1u8 <==> (b >> 5u8) & 1u8 == 1u8)
        && ((a >> 4u8) & 1u8 == 1u8 <==> (b >> 4u8) & 1u8 == 1u8) && ((a >> 3u8) & 1u8 == 1u8
        <==> (b >> 3u8) & 1u8 == 1u8) && ((a >> 2u8) & 1u8 == 1u8 <==> (b >> 2u8) & 1u8 == 1u8)
        && ((a >> 1u8) & 1u8 == 1u8 <==> (b >> 1u8) & 1u8 == 1u8) && ((a >> 0u8) & 1u8 == 1u8
        <==> (b >> 0u8) & 1u8 == 1u8) ==> a == b) by (bit_vector);
}

/// Two addresses lie in one network of whole octets exactly where those are the
/// same.
proof fn lemma_octet_networks(a: Seq<u8>, b: Seq<u8>, octets: nat)
    requires
        a.len() == 4,
        b.len() == 4,
        octets <= 4,
    ensures
        ip::same_network(IpView::V4(a), IpView::V4(b), octets * 8) <==> a.take(octets as int)
            == b.take(octets as int),
{
    let x = IpView::V4(a);
    let y = IpView::V4(b);
    if ip::same_network(x, y, octets * 8) {
        assert forall|i: int| 0 <= i < octets implies a[i] == b[i] by {
            assert(ip::ip_bit(x, 8 * i) == ip::ip_bit(y, 8 * i));
            assert(ip::ip_bit(x, 8 * i + 1) == ip::ip_bit(y, 8 * i + 1));
            assert(ip::ip_bit(x, 8 * i + 2) == ip::ip_bit(y, 8 * i + 2));
            assert(ip::ip_bit(x, 8 * i + 3) == ip::ip_bit(y, 8 * i + 3));
            assert(ip::ip_bit(x, 8 * i + 4) == ip::ip_bit(y, 8 * i + 4));
            assert(ip::ip_bit(x, 8 * i + 5) == ip::ip_bit(y, 8 * i + 5));
            assert(ip::ip_bit(x, 8 * i + 6) == ip::ip_bit(y, 8 * i + 6));
            assert(ip::ip_bit(x, 8 * i + 7) == ip::ip_bit(y, 8 * i + 7));
            assert((8 * i) / 8 == i && (8 * i + 1) / 8 == i && (8 * i + 2) / 8 == i && (8 * i + 3)
                / 8 == i && (8 * i + 4) / 8 == i && (8 * i + 5) / 8 == i && (8 * i + 6) / 8 == i
                && (8 * i + 7) / 8 == i);
            lemma_same_byte(a[i], b[i]);
        }
        assert(a.take(octets as int) =~= b.take(octets as int));
    }
    if a.take(octets as int) == b.take(octets as int) {
        assert forall|k: int| 0 <= k < octets * 8 implies #[trigger] ip::ip_bit(x, k)
            == ip::ip_bit(y, k) by {
            let i = k / 8;
            assert(0 <= i < octets);
            assert(a.take(octets as int)[i] == b.take(octets as int)[i]);
            assert(a[i] == b[i]);
        }
    }
}

/// A text of digits and dots holds no slash.
proof fn lemma_no_slash(octets: Seq<u8>)
    requires
        octets.len() == 4,
    ensures
        !ip::v4_text(octets).contains('/'),
{
    reveal_strlit(".");
    text_laws::lemma_decimal_digits(octets[0] as nat);
    text_laws::lemma_decimal_digits(octets[1] as nat);
    text_laws::lemma_decimal_digits(octets[2] as nat);
    text_laws::lemma_decimal_digits(octets[3] as nat);
    let a = text::decimal(octets[0] as nat);
    let b = text::decimal(octets[1] as nat);
    let c = text::decimal(octets[2] as nat);
    let d = text::decimal(octets[3] as nat);
    let s = ip::v4_text(octets);
    assert(s =~= a + "."@ + b + "."@ + c + "."@ + d);
    assert forall|i: int| 0 <= i < s.len() implies #[trigger] s[i] != '/' by {
        let p = a.len() as int;
        let q = p + 1 + b.len();
        let r = q + 1 + c.len();
        if i < p {
            assert(s[i] == a[i]);
            assert(text::is_digit(a[i]));
        } else if i == p {
            assert(s[i] == '.');
        } else if i < q {
            assert(s[i] == b[i - p - 1]);
            assert(text::is_digit(b[i - p - 1]));
        } else if i == q {
            assert(s[i] == '.');
        } else if i < r {
            assert(s[i] == c[i - q - 1]);
            assert(text::is_digit(c[i - q - 1]));
        } else if i == r {
            assert(s[i] == '.');
        } else {
            assert(s[i] == d[i - r - 1]);
            assert(text::is_digit(d[i - r - 1]));
        }
    }
}

/// The first slash is found.
proof fn lemma_slash_at(s: Seq<char>, at: int, from: int)
    requires
        0 <= from <= at < s.len(),
        s[at] == '/',
        forall|i: int| from <= i < at ==> #[trigger] s[i] != '/',
    ensures
        ip::slash_at(s, from) == Some(at),
    decreases at - from,
{
    if from < at {
        assert(s[from] != '/');
        lemma_slash_at(s, at, from + 1);
    }
}

/// An address lies in a network that is written as an address and a number of
/// octets exactly where those octets are the same.
pub proof fn law_addresses_lie_in_networks(
    address: [u8; 4],
    network: [u8; 4],
    octets: nat,
    cidr: &str,
    inside: bool,
)
    requires
        octets <= 4,
        cidr@ == ip::v4_text(network@) + seq!['/'] + text::decimal(octets * 8),
        call_ensures(ip::ip_in_cidr, (&IpAddress::V4(address), cidr), inside),
    ensures
        inside <==> address@.take(octets as int) == network@.take(octets as int),
{
    let s = cidr@;
    let name = ip::v4_text(network@);
    let at = name.len() as int;
    lemma_no_slash(network@);
    assert(s[at] == '/');
    assert forall|i: int| 0 <= i < at implies #[trigger] s[i] != '/' by {
        assert(s[i] == name[i]);
        assert(name.contains(name[i]));
    }
    lemma_slash_at(s, at, 0);
    assert(s.take(at) =~= name);
    assert(s.skip(at + 1) =~= text::decimal(octets * 8));
    ip_laws::law_address_text_reads_back(IpView::V4(network@));
    text_laws::law_decimal_round_trip(octets * 8, u32::MAX as nat);
    text_laws::lemma_decimal_digits(octets * 8);
    lemma_octet_networks(address@, network@, octets);
}

/// An address that is written without a network is itself alone.
pub proof fn law_addresses_lie_in_themselves(address: [u8; 4], cidr: &str, inside: bool)
    requires
        forall|i: int| 0 <= i < cidr@.len() ==> #[trigger] cidr@[i] != '/',
        call_ensures(ip::ip_in_cidr, (&IpAddress::V4(address), cidr), inside),
    ensures
        inside <==> cidr@ == ip::v4_text(address@),
{
    lemma_no_slash_found(cidr@, 0);
}

/// Without a slash none is found.
proof fn lemma_no_slash_found(s: Seq<char>, from: int)
    requires
        0 <= from <= s.len(),
        forall|i: int| 0 <= i < s.len() ==> #[trigger] s[i] != '/',
    ensures
        ip::slash_at(s, from) is None,
    decreases s.len() - from,
{
    if from < s.len() {
        assert(s[from] != '/');
        lemma_no_slash_found(s, from + 1);
    }
}

/// An address lies in a list of ranges exactly where it lies in one of them.
pub proof fn law_addresses_lie_in_ranges(
    address: IpAddress,
    ranges: &str,
    inside: bool,
    configured: Option<String>,
    within: bool,
)
    requires
        call_ensures(ip::ip_in_ranges, (&address, ranges), inside),
        configured matches Some(list) ==> list@ == ranges@,
        call_ensures(
            crate::origin::ip_in_configured_ranges,
            (&address, &configured),
            within,
        ),
    ensures
        inside <==> exists|i: int|
            0 <= i < text::listed(ranges@).len() && ip::in_cidr(
                address@,
                #[trigger] text::listed(ranges@)[i],
            ),
        configured is Some ==> within == inside,
        configured is None ==> !within,
{
}

/// The number that a small hexadecimal digit stands for.
pub open spec fn digit_number(c: char) -> int {
    if '0' <= c <= '9' {
        c as int - 48
    } else {
        c as int - 87
    }
}

/// Bytes are written as two small hexadecimal digits each, the high one first.
pub proof fn law_bytes_are_written(bytes: Seq<u8>, i: int)
    requires
        0 <= i < bytes.len(),
    ensures
        ({
            let high = outside::hex_text(bytes)[2 * i];
            let low = outside::hex_text(bytes)[2 * i + 1];
            &&& outside::hex_text(bytes).len() == 2 * bytes.len()
            &&& '0' <= high <= '9' || 'a' <= high <= 'f'
            &&& '0' <= low <= '9' || 'a' <= low <= 'f'
            &&& bytes[i] == digit_number(high) * 16 + digit_number(low)
        }),
{
    assert((2 * i) / 2 == i && (2 * i + 1) / 2 == i);
    assert((2 * i) % 2 == 0 && (2 * i + 1) % 2 == 1);
}

/// A random identifier has five groups of hexadecimal digits, joined by hyphens.
pub proof fn law_identifiers_have_five_groups(id: String)
    requires
        call_ensures(outside::random_uuid, (), id),
    ensures
        id@.len() == 36,
        id@[8] == '-',
        id@[13] == '-',
        id@[18] == '-',
        id@[23] == '-',
{
    reveal_strlit("-");
}

/// The clock counts from 1970, and stands still before.
pub proof fn law_the_clock_starts_in_1970(elapsed: Option<u64>, seconds: u64)
    requires
        call_ensures(outside::unix_seconds_at, (elapsed,), seconds),
    ensures
        elapsed matches Some(passed) ==> seconds == passed,
        elapsed is None ==> seconds == 0,
{
}

/// A network that is written with more bits than an address has holds none.
pub proof fn law_overlong_networks_hold_nothing(
    address: [u8; 4],
    network: [u8; 4],
    bits: nat,
    cidr: &str,
    inside: bool,
)
    requires
        bits > 32,
        cidr@ == ip::v4_text(network@) + seq!['/'] + text::decimal(bits),
        call_ensures(ip::ip_in_cidr, (&IpAddress::V4(address), cidr), inside),
    ensures
        !inside,
{
    let s = cidr@;
    let name = ip::v4_text(network@);
    let at = name.len() as int;
    lemma_no_slash(network@);
    assert(s[at] == '/');
    assert forall|i: int| 0 <= i < at implies #[trigger] s[i] != '/' by {
        assert(s[i] == name[i]);
        assert(name.contains(name[i]));
    }
    lemma_slash_at(s, at, 0);
    assert(s.take(at) =~= name);
    assert(s.skip(at + 1) =~= text::decimal(bits));
    ip_laws::law_address_text_reads_back(IpView::V4(network@));
    text_laws::lemma_decimal_digits(bits);
    assert(text::is_digit(text::decimal(bits)[0]));
    if bits <= u32::MAX {
        text_laws::law_decimal_round_trip(bits, u32::MAX as nat);
    }
}

/// Sorting keeps every text, and puts none before one that it comes after.
pub proof fn law_sorting_keeps_every_text(
    list: Vec<String>,
    sorted: Vec<String>,
    a: int,
    b: int,
    i: int,
)
    requires
        call_ensures(order::sort_texts, (&list,), sorted),
        0 <= a < b < sorted@.len(),
        0 <= i < list@.len(),
    ensures
        sorted@.len() == list@.len(),
        !order::text_before(sorted@[b]@, sorted@[a]@),
        text::views(sorted@).contains(list@[i]@),
        text::views(list@).contains(sorted@[a]@),
{
    let x = text::views(list@);
    let y = text::views(sorted@);
    assert(x.len() == list@.len() && y.len() == sorted@.len());
    let ranking = choose|ranking: Seq<int>| #[trigger]
        order::is_arrangement(ranking, x.len()) && y == order::arranged(x, ranking);
    assert(order::arranged(x, ranking).len() == ranking.len());
    assert(y[a] == sorted@[a]@ && y[b] == sorted@[b]@);
    assert(x[i] == list@[i]@);
    assert(ranking.contains(i));
    let k = choose|k: int| 0 <= k < ranking.len() && ranking[k] == i;
    assert(y[k] == x[i]);
    assert(y[a] == x[ranking[a]]);
    assert(0 <= ranking[a] < x.len());
}

/// A text is its pieces, joined.
proof fn lemma_join_of_pieces(s: Seq<char>, separator: char)
    ensures
        text::joined(text::pieces(s, separator), seq![separator]) == s,
    decreases s.len(),
{
    let between = seq![separator];
    if s.len() == 0 {
        assert(text::pieces(s, separator) =~= seq![Seq::<char>::empty()]);
        assert(s =~= Seq::<char>::empty());
    } else {
        let front = s.drop_last();
        let before = text::pieces(front, separator);
        let after = text::pieces(s, separator);
        lemma_join_of_pieces(front, separator);
        text_laws::lemma_pieces(front, separator);
        assert(s =~= front.push(s.last()));
        if s.last() == separator {
            assert(after.drop_last() =~= before);
            assert(front + between + Seq::<char>::empty() =~= s);
        } else if before.len() == 1 {
            assert(after =~= seq![before[0].push(s.last())]);
        } else {
            assert(after.drop_last() =~= before.drop_last());
            assert(after.last() == before.last().push(s.last()));
            let start = text::joined(before.drop_last(), between);
            assert(start + between + before.last().push(s.last()) =~= (start + between
                + before.last()).push(s.last()));
        }
    }
}

/// Digits without a needless zero in front are how their number is written.
proof fn lemma_digits_are_decimal(s: Seq<char>)
    requires
        text::is_digits(s),
        s.len() == 1 || s[0] != '0',
    ensures
        text::decimal(text::digits_value(s)) == s,
    decreases s.len(),
{
    let front = s.drop_last();
    let value = text::digits_value(s);
    assert(text::is_digit(s[s.len() - 1]));
    if s.len() == 1 {
        assert(front =~= Seq::<char>::empty());
        assert(text::digits_value(front) == 0);
        assert(text::decimal(value) =~= s);
    } else {
        assert forall|i: int| 0 <= i < front.len() implies text::is_digit(#[trigger] front[i]) by {
            assert(front[i] == s[i]);
        }
        assert(front[0] == s[0]);
        lemma_digits_are_decimal(front);
        let head = text::digits_value(front);
        if head == 0 {
            assert(text::decimal(head) =~= seq!['0']);
        }
        assert(value / 10 == head);
        assert(value % 10 == s.last() as int - 48);
        assert(text::decimal(value) =~= s);
    }
}

/// An IPv4 address is written in one way only: four numbers up to 255, without
/// needless zeros, parted by dots.
pub proof fn law_v4_addresses_are_written_one_way(s: &str, address: [u8; 4])
    requires
        call_ensures(ip::parse_v4, (s,), Some(address)),
    ensures
        s@ == text::decimal(address@[0] as nat) + "."@ + text::decimal(address@[1] as nat) + "."@
            + text::decimal(address@[2] as nat) + "."@ + text::decimal(address@[3] as nat),
{
    reveal_strlit(".");
    assert("."@ =~= seq!['.']);
    let parts = text::pieces(s@, '.');
    lemma_join_of_pieces(s@, '.');
    assert forall|i: int| 0 <= i < 4 implies #[trigger] parts[i] == text::decimal(
        address@[i] as nat,
    ) by {
        assert(ip::octet_of(parts[i]) is Some);
        lemma_digits_are_decimal(parts[i]);
        assert(address@[i] == text::digits_value(parts[i]));
    }
    reveal_with_fuel(text::joined, 5);
    assert(parts.drop_last() =~= seq![parts[0], parts[1], parts[2]]);
    assert(parts.drop_last().drop_last() =~= seq![parts[0], parts[1]]);
    assert(parts.drop_last().drop_last().drop_last() =~= seq![parts[0]]);
    assert(s@ =~= parts[0] + "."@ + parts[1] + "."@ + parts[2] + "."@ + parts[3]);
}

/// Two groups are the same where all their bits are.
proof fn lemma_same_group(a: u16, b: u16)
    requires
        (a >> 15u16) & 1u16 == 1u16 <==> (b >> 15u16) & 1u16 == 1u16,
        (a >> 14u16) & 1u16 == 1u16 <==> (b >> 14u16) & 1u16 == 1u16,
        (a >> 13u16) & 1u16 == 1u16 <==> (b >> 13u16) & 1u16 == 1u16,
        (a >> 12u16) & 1u16 == 1u16 <==> (b >> 12u16) & 1u16 == 1u16,
        (a >> 11u16) & 1u16 == 1u16 <==> (b >> 11u16) & 1u16 == 1u16,
        (a >> 10u16) & 1u16 == 1u16 <==> (b >> 10u16) & 1u16 == 1u16,
        (a >> 9u16) & 1u16 == 1u16 <==> (b >> 9u16) & 1u16 == 1u16,
        (a >> 8u16) & 1u16 == 1u16 <==> (b >> 8u16) & 1u16 == 1u16,
        (a >> 7u16) & 1u16 == 1u16 <==> (b >> 7u16) & 1u16 == 1u16,
        (a >> 6u16) & 1u16 == 1u16 <==> (b >> 6u16) & 1u16 == 1u16,
        (a >> 5u16) & 1u16 == 1u16 <==> (b >> 5u16) & 1u16 == 1u16,
        (a >> 4u16) & 1u16 == 1u16 <==> (b >> 4u16) & 1u16 == 1u16,
        (a >> 3u16) & 1u16 == 1u16 <==> (b >> 3u16) & 1u16 == 1u16,
        (a >> 2u16) & 1u16 == 1u16 <==> (b >> 2u16) & 1u16 == 1u16,
        (a >> 1u16) & 1u16 == 1u16 <==> (b >> 1u16) & 1u16 == 1u16,
        (a >> 0u16) & 1u16 == 1u16 <==> (b >> 0u16) & 1u16 == 1u16,
    ensures
        a == b,
{
    assert(((a >> 15u16) & 1u16 == 1u16 <==> (b >> 15u16) & 1u16 == 1u16)
        && ((a >> 14u16) & 1u16 == 1u16 <==> (b >> 14u16) & 1u16 == 1u16)
        && ((a >> 13u16) & 1u16 == 1u16 <==> (b >> 13u16) & 1u16 == 1u16)
        && ((a >> 12u16) & 1u16 == 1u16 <==> (b >> 12u16) & 1u16 == 1u16)
        && ((a >> 11u16) & 1u16 == 1u16 <==> (b >> 11u16) & 1u16 == 1u16)
        && ((a >> 10u16) & 1u16 == 1u16 <==> (b >> 10u16) & 1u16 == 1u16)
        && ((a >> 9u16) & 1u16 == 1u16 <==> (b >> 9u16) & 1u16 == 1u16)
        && ((a >> 8u16) & 1u16 == 1u16 <==> (b >> 8u16) & 1u16 == 1u16)
        && ((a >> 7u16) & 1u16 == 1u16 <==> (b >> 7u16) & 1u16 == 1u16)
        && ((a >> 6u16) & 1u16 == 1u16 <==> (b >> 6u16) & 1u16 == 1u16)
        && ((a >> 5u16) & 1u16 == 1u16 <==> (b >> 5u16) & 1u16 == 1u16)
        && ((a >> 4u16) & 1u16 == 1u16 <==> (b >> 4u16) & 1u16 == 1u16)
        && ((a >> 3u16) & 1u16 == 1u16 <==> (b >> 3u16) & 1u16 == 1u16)
        && ((a >> 2u16) & 1u16 == 1u16 <==> (b >> 2u16) & 1u16 == 1u16)
        && ((a >> 1u16) & 1u16 == 1u16 <==> (b >> 1u16) & 1u16 == 1u16)
        && ((a >> 0u16) & 1u16 == 1u16 <==> (b >> 0u16) & 1u16 == 1u16)
        ==> a == b) by (bit_vector);
}

/// Two IPv6 addresses lie in one network of whole groups exactly where those are
/// the same.
pub proof fn law_v6_addresses_lie_in_networks(a: Seq<u16>, b: Seq<u16>, groups: nat)
    requires
        a.len() == 8,
        b.len() == 8,
        groups <= 8,
    ensures
        ip::same_network(IpView::V6(a), IpView::V6(b), groups * 16) <==> a.take(groups as int)
            == b.take(groups as int),
{
    let x = IpView::V6(a);
    let y = IpView::V6(b);
    if ip::same_network(x, y, groups * 16) {
        assert forall|i: int| 0 <= i < groups implies a[i] == b[i] by {
            assert(ip::ip_bit(x, 16 * i) == ip::ip_bit(y, 16 * i));
            assert(ip::ip_bit(x, 16 * i + 1) == ip::ip_bit(y, 16 * i + 1));
            assert(ip::ip_bit(x, 16 * i + 2) == ip::ip_bit(y, 16 * i + 2));
            assert(ip::ip_bit(x, 16 * i + 3) == ip::ip_bit(y, 16 * i + 3));
            assert(ip::ip_bit(x, 16 * i + 4) == ip::ip_bit(y, 16 * i + 4));
            assert(ip::ip_bit(x, 16 * i + 5) == ip::ip_bit(y, 16 * i + 5));
            assert(ip::ip_bit(x, 16 * i + 6) == ip::ip_bit(y, 16 * i + 6));
            assert(ip::ip_bit(x, 16 * i + 7) == ip::ip_bit(y, 16 * i + 7));
            assert(ip::ip_bit(x, 16 * i + 8) == ip::ip_bit(y, 16 * i + 8));
            assert(ip::ip_bit(x, 16 * i + 9) == ip::ip_bit(y, 16 * i + 9));
            assert(ip::ip_bit(x, 16 * i + 10) == ip::ip_bit(y, 16 * i + 10));
            assert(ip::ip_bit(x, 16 * i + 11) == ip::ip_bit(y, 16 * i + 11));
            assert(ip::ip_bit(x, 16 * i + 12) == ip::ip_bit(y, 16 * i + 12));
            assert(ip::ip_bit(x, 16 * i + 13) == ip::ip_bit(y, 16 * i + 13));
            assert(ip::ip_bit(x, 16 * i + 14) == ip::ip_bit(y, 16 * i + 14));
            assert(ip::ip_bit(x, 16 * i + 15) == ip::ip_bit(y, 16 * i + 15));
            assert((16 * i) / 16 == i
                && (16 * i + 1) / 16 == i
                && (16 * i + 2) / 16 == i
                && (16 * i + 3) / 16 == i
                && (16 * i + 4) / 16 == i
                && (16 * i + 5) / 16 == i
                && (16 * i + 6) / 16 == i
                && (16 * i + 7) / 16 == i
                && (16 * i + 8) / 16 == i
                && (16 * i + 9) / 16 == i
                && (16 * i + 10) / 16 == i
                && (16 * i + 11) / 16 == i
                && (16 * i + 12) / 16 == i
                && (16 * i + 13) / 16 == i
                && (16 * i + 14) / 16 == i
                && (16 * i + 15) / 16 == i);
            assert((16 * i) % 16 == 0
                && (16 * i + 1) % 16 == 1
                && (16 * i + 2) % 16 == 2
                && (16 * i + 3) % 16 == 3
                && (16 * i + 4) % 16 == 4
                && (16 * i + 5) % 16 == 5
                && (16 * i + 6) % 16 == 6
                && (16 * i + 7) % 16 == 7
                && (16 * i + 8) % 16 == 8
                && (16 * i + 9) % 16 == 9
                && (16 * i + 10) % 16 == 10
                && (16 * i + 11) % 16 == 11
                && (16 * i + 12) % 16 == 12
                && (16 * i + 13) % 16 == 13
                && (16 * i + 14) % 16 == 14
                && (16 * i + 15) % 16 == 15);
            lemma_same_group(a[i], b[i]);
        }
        assert(a.take(groups as int) =~= b.take(groups as int));
    }
    if a.take(groups as int) == b.take(groups as int) {
        assert forall|k: int| 0 <= k < groups * 16 implies #[trigger] ip::ip_bit(x, k)
            == ip::ip_bit(y, k) by {
            let i = k / 16;
            assert(0 <= i < groups);
            assert(a.take(groups as int)[i] == b.take(groups as int)[i]);
            assert(a[i] == b[i]);
        }
    }
}

} // verus!
