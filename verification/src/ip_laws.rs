//! Reading the text of an address gives the address back.
use vstd::prelude::*;
use crate::ip;
use crate::ip::IpView;
use crate::text;
use crate::text_laws;

verus! {

/// An octet reads back from its decimal notation.
proof fn lemma_octet(octet: u8)
    ensures
        ip::octet_of(text::decimal(octet as nat)) == Some(octet),
        text::decimal(octet as nat).len() > 0,
        !text::decimal(octet as nat).contains('.'),
        !text::decimal(octet as nat).contains(':'),
{
    let s = text::decimal(octet as nat);
    text_laws::lemma_decimal_digits(octet as nat);
    reveal_with_fuel(text::decimal, 3);
    assert forall|i: int| 0 <= i < s.len() implies #[trigger] s[i] != '.' && s[i] != ':' by {
        assert(text::is_digit(s[i]));
    }
}

/// Four octets read back from their dotted notation, which holds no colon.
proof fn lemma_v4(octets: Seq<u8>)
    requires
        octets.len() == 4,
    ensures
        ip::parsed_v4(ip::v4_text(octets)) == Some(octets),
        !ip::v4_text(octets).contains(':'),
{
    let parts = octets.map_values(|octet: u8| text::decimal(octet as nat));
    reveal_strlit(".");
    assert("."@ =~= seq!['.']);
    assert forall|i: int| 0 <= i < 4 implies !(#[trigger] parts[i]).contains('.') && !parts[i].contains(':')
        && ip::octet_of(parts[i]) == Some(octets[i]) by {
        lemma_octet(octets[i]);
    }
    reveal_with_fuel(text::joined, 4);
    let joined = text::joined(parts, seq!['.']);
    assert(parts.drop_last().drop_last().drop_last()[0] == parts[0]);
    assert(joined =~= ip::v4_text(octets));
    text_laws::law_split_of_join(parts, '.');
    assert(Seq::new(4, |i: int| ip::octet_of(parts[i])->0) =~= octets);
    assert forall|i: int| 0 <= i < joined.len() implies #[trigger] joined[i] != ':' by {
        if joined[i] == ':' {
            text_laws::lemma_chars_of_pieces(joined, '.', ':');
            let j = choose|j: int| 0 <= j < parts.len() && (#[trigger] parts[j]).contains(':');
            assert(!parts[j].contains(':'));
        }
    }
}

/// A text with a colon is no dotted notation.
proof fn lemma_colon_is_not_v4(s: Seq<char>)
    requires
        s.contains(':'),
    ensures
        ip::parsed_v4(s) is None,
{
    text_laws::lemma_chars_of_pieces(s, '.', ':');
    let parts = text::pieces(s, '.');
    let j = choose|j: int| 0 <= j < parts.len() && (#[trigger] parts[j]).contains(':');
    if text::is_digits(parts[j]) {
        let k = choose|k: int| 0 <= k < parts[j].len() && parts[j][k] == ':';
        assert(text::is_digit(parts[j][k]));
    }
    assert(ip::octet_of(parts[j]) is None);
}

/// The hexadecimal notation of a group reads back, and holds neither a dot nor a colon.
proof fn lemma_group(group: u16)
    ensures
        ip::group_of(ip::hex_of(group as nat)) == Some(group),
        ip::hex_of(group as nat).len() > 0,
        !ip::hex_of(group as nat).contains('.'),
        !ip::hex_of(group as nat).contains(':'),
{
    lemma_hex(group as nat);
    let s = ip::hex_of(group as nat);
    reveal_with_fuel(ip::hex_of, 4);
    assert(1 <= s.len() <= 4);
    assert forall|i: int| 0 <= i < s.len() implies #[trigger] s[i] != '.' && s[i] != ':' by {
        assert(text::is_hex_digit(s[i]));
    }
}

/// A hexadecimal notation is made of hexadecimal digits and reads back as its number.
proof fn lemma_hex(n: nat)
    ensures
        forall|i: int| 0 <= i < ip::hex_of(n).len() ==> text::is_hex_digit(#[trigger] ip::hex_of(n)[i]),
        ip::hex_value(ip::hex_of(n)) == n,
    decreases n,
{
    let s = ip::hex_of(n);
    if n < 16 {
        assert(s.drop_last() =~= Seq::<char>::empty());
        assert(ip::hex_value(s.drop_last()) == 0);
    } else {
        lemma_hex(n / 16);
        assert(s.drop_last() =~= ip::hex_of(n / 16));
        assert forall|i: int| 0 <= i < s.len() implies text::is_hex_digit(#[trigger] s[i]) by {
            if i < s.len() - 1 {
                assert(s[i] == ip::hex_of(n / 16)[i]);
            }
        }
    }
}

/// The notations of groups, one by one.
spec fn notations(groups: Seq<u16>) -> Seq<Seq<char>> {
    groups.map_values(|group: u16| ip::hex_of(group as nat))
}

/// Groups read back from their notations.
proof fn lemma_groups(groups: Seq<u16>)
    ensures
        ip::groups_of(notations(groups)) == Some(groups),
    decreases groups.len(),
{
    let parts = notations(groups);
    if groups.len() == 0 {
        assert(groups =~= Seq::empty());
    } else {
        lemma_groups(groups.drop_last());
        lemma_group(groups.last());
        assert(parts.drop_last() =~= notations(groups.drop_last()));
        assert(groups.drop_last().push(groups.last()) =~= groups);
    }
}

/// Groups read back from their notations where a dotted address may stand last.
proof fn lemma_groups_with_v4(groups: Seq<u16>)
    ensures
        ip::groups_with_v4(notations(groups)) == Some(groups),
{
    lemma_groups(groups);
    if groups.len() > 0 {
        lemma_group(groups.last());
        text_laws::lemma_single_piece(notations(groups).last(), '.');
        assert(ip::parsed_v4(notations(groups).last()) is None);
    }
}

/// Two colons stand in a row at a place.
spec fn pair_at(s: Seq<char>, at: int) -> bool {
    0 <= at && at + 1 < s.len() && s[at] == ':' && s[at + 1] == ':'
}

/// No two colons stand in a row, and none at either end.
spec fn is_tidy(s: Seq<char>) -> bool {
    &&& s.len() > 0 ==> s[0] != ':' && s.last() != ':'
    &&& forall|at: int| !(#[trigger] pair_at(s, at))
}

/// The text of some groups is tidy, splits into their notations, and is empty for no groups only.
proof fn lemma_groups_text(groups: Seq<u16>)
    ensures
        is_tidy(ip::groups_text(groups)),
        ip::side_parts(ip::groups_text(groups)) == notations(groups),
        groups.len() == 0 <==> ip::groups_text(groups).len() == 0,
        groups.len() > 0 ==> text::pieces(ip::groups_text(groups), ':') == notations(groups),
        groups.len() > 1 ==> ip::groups_text(groups).contains(':'),
    decreases groups.len(),
{
    let parts = notations(groups);
    let s = ip::groups_text(groups);
    reveal_strlit(":");
    assert(":"@ =~= seq![':']);
    assert forall|i: int| 0 <= i < parts.len() implies !(#[trigger] parts[i]).contains(':') by {
        lemma_group(groups[i]);
    }
    if groups.len() == 0 {
        assert(parts =~= Seq::empty());
    } else {
        text_laws::law_split_of_join(parts, ':');
        lemma_group(groups.last());
        let last = parts.last();
        assert forall|i: int| 0 <= i < last.len() implies #[trigger] last[i] != ':' by {
            assert(last.contains(last[i]));
        }
        if groups.len() > 1 {
            let front = groups.drop_last();
            lemma_groups_text(front);
            assert(parts.drop_last() =~= notations(front));
            let head = ip::groups_text(front);
            assert(s == head + seq![':'] + last);
            assert(s[head.len() as int] == ':');
            assert forall|at: int| !(#[trigger] pair_at(s, at)) by {
                if pair_at(s, at) {
                    if at + 1 < head.len() {
                        assert(!pair_at(head, at));
                    } else if at < head.len() {
                        assert(head.last() == s[at]);
                    } else if at == head.len() {
                        assert(s[at + 1] == last[0]);
                    } else {
                        assert(s[at] == last[at - head.len() - 1]);
                    }
                }
            }
        } else {
            assert(s == last);
        }
    }
}

/// The first two colons in a row are found where they stand.
proof fn lemma_double_colon_at(s: Seq<char>, from: int, at: int)
    requires
        0 <= from <= at,
        pair_at(s, at),
        forall|i: int| from <= i < at ==> !(#[trigger] pair_at(s, i)),
    ensures
        ip::double_colon(s, from) == Some(at),
    decreases at - from,
{
    if from < at {
        assert(!pair_at(s, from));
        lemma_double_colon_at(s, from + 1, at);
    }
}

/// Nothing is found where no two colons stand in a row.
proof fn lemma_no_double_colon(s: Seq<char>, from: int)
    requires
        0 <= from,
        forall|i: int| !(#[trigger] pair_at(s, i)),
    ensures
        ip::double_colon(s, from) is None,
    decreases s.len() - from,
{
    if from + 1 < s.len() {
        assert(!pair_at(s, from));
        lemma_no_double_colon(s, from + 1);
    }
}

/// A run of zero groups lies within the groups and holds zeros.
proof fn lemma_zero_run(groups: Seq<u16>, from: int)
    requires
        0 <= from <= groups.len(),
    ensures
        from + ip::zero_run(groups, from) <= groups.len(),
        forall|i: int| from <= i < from + ip::zero_run(groups, from) ==> #[trigger] groups[i] == 0,
    decreases groups.len() - from,
{
    if from < groups.len() && groups[from] == 0 {
        lemma_zero_run(groups, from + 1);
    }
}

/// The longest run starts at one of the places looked at.
proof fn lemma_longest_run_start(groups: Seq<u16>, n: nat)
    ensures
        0 <= ip::longest_run_start(groups, n),
        n > 0 ==> ip::longest_run_start(groups, n) < n,
        n == 0 ==> ip::longest_run_start(groups, n) == 0,
    decreases n,
{
    if n > 1 {
        lemma_longest_run_start(groups, (n - 1) as nat);
    }
}

/// A mapped IPv4 address reads back from its text.
proof fn lemma_mapped(groups: Seq<u16>)
    requires
        groups.len() == 8,
        ip::is_mapped(groups),
    ensures
        ip::parsed_ip(ip::v6_text(groups)) == Some(IpView::V6(groups)),
{
    let octets = ip::mapped_octets(groups);
    let s = ip::v6_text(groups);
    let dotted = ip::v4_text(octets);
    lemma_v4(octets);
    reveal_strlit("::ffff:");
    assert(s[0] == ':' && s[1] == ':');
    assert(s.contains(':'));
    lemma_colon_is_not_v4(s);
    lemma_double_colon_at(s, 0, 0);
    let high = seq!['f', 'f', 'f', 'f'];
    let parts = seq![high, dotted];
    assert(text::joined(parts, seq![':']) =~= high + seq![':'] + dotted) by {
        reveal_with_fuel(text::joined, 2);
    }
    assert(s.skip(2) =~= text::joined(parts, seq![':']));
    text_laws::law_split_of_join(parts, ':');
    assert(ip::group_of(high) == Some(0xffffu16)) by {
        reveal_with_fuel(ip::hex_value, 5);
    }
    assert(parts.drop_last() =~= seq![high]);
    assert(ip::groups_of(seq![high]) == Some(seq![0xffffu16])) by {
        assert(seq![high].drop_last() =~= Seq::<Seq<char>>::empty());
        assert(ip::groups_of(Seq::<Seq<char>>::empty()) == Some(Seq::<u16>::empty()));
        assert(Seq::<u16>::empty().push(0xffffu16) =~= seq![0xffffu16]);
    }
    assert(ip::octet_groups(octets) =~= seq![groups[6], groups[7]]);
    let tail = seq![0xffffu16] + ip::octet_groups(octets);
    assert(ip::groups_with_v4(parts) == Some(tail));
    assert(s.take(0) =~= Seq::<char>::empty());
    let head = Seq::<u16>::empty();
    assert(ip::groups_of(ip::side_parts(s.take(0))) == Some(head));
    assert(head + ip::zero_groups(5) + tail =~= groups);
}

/// Eight groups that hold no mapped address read back from their text.
proof fn lemma_plain(groups: Seq<u16>)
    requires
        groups.len() == 8,
        !ip::is_mapped(groups),
    ensures
        ip::parsed_ip(ip::v6_text(groups)) == Some(IpView::V6(groups)),
{
    let start = ip::longest_run_start(groups, 8);
    let run = ip::zero_run(groups, start);
    let s = ip::v6_text(groups);
    lemma_longest_run_start(groups, 8);
    lemma_zero_run(groups, start);
    if run > 1 {
        let head = groups.take(start);
        let tail = groups.skip(start + run as int);
        let before = ip::groups_text(head);
        let after = ip::groups_text(tail);
        lemma_groups_text(head);
        lemma_groups_text(tail);
        lemma_groups(head);
        lemma_groups_with_v4(tail);
        reveal_strlit("::");
        let at = before.len() as int;
        assert(s == before + "::"@ + after);
        assert(s[at] == ':' && s[at + 1] == ':');
        assert(s.contains(':'));
        lemma_colon_is_not_v4(s);
        assert forall|i: int| 0 <= i < at implies !(#[trigger] pair_at(s, i)) by {
            if i + 1 < at {
                assert(!pair_at(before, i));
            } else {
                assert(s[i] == before.last());
            }
        }
        lemma_double_colon_at(s, 0, at);
        assert(s.take(at) =~= before);
        assert(s.skip(at + 2) =~= after);
        assert(head + ip::zero_groups(8 - head.len() - tail.len()) + tail =~= groups);
    } else {
        lemma_groups_text(groups);
        lemma_groups_with_v4(groups);
        lemma_colon_is_not_v4(s);
        lemma_no_double_colon(s, 0);
    }
}

/// Reading the text of an address gives the address back.
pub proof fn law_address_text_reads_back(address: IpView)
    requires
        ip::is_address(address),
    ensures
        ip::parsed_ip(ip::ip_text(address)) == Some(address),
{
    match address {
        IpView::V4(octets) => {
            lemma_v4(octets);
        },
        IpView::V6(groups) => {
            if ip::is_mapped(groups) {
                lemma_mapped(groups);
            } else {
                lemma_plain(groups);
            }
        },
    }
}

/// Two addresses have one text only where they are the same address.
pub proof fn law_address_texts_are_distinct(a: IpView, b: IpView)
    requires
        ip::is_address(a),
        ip::is_address(b),
        ip::ip_text(a) == ip::ip_text(b),
    ensures
        a == b,
{
    law_address_text_reads_back(a);
    law_address_text_reads_back(b);
}

} // verus!
