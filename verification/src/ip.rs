//! IP addresses: their text forms, address ranges, and which addresses are
//! reachable from the public internet.
use vstd::prelude::*;
use crate::outside;
use crate::text;

verus! {

/// An address of either family, as the octets or the groups of its notation.
#[derive(Debug, Clone, Copy)]
pub enum IpAddress {
    V4([u8; 4]),
    V6([u16; 8]),
}

/// The octets or groups of an address.
pub ghost enum IpView {
    V4(Seq<u8>),
    V6(Seq<u16>),
}

impl View for IpAddress {
    type V = IpView;

    open spec fn view(&self) -> IpView {
        match self {
            IpAddress::V4(octets) => IpView::V4(octets@),
            IpAddress::V6(groups) => IpView::V6(groups@),
        }
    }
}

/// A view with as many octets or groups as its family has.
pub open spec fn is_address(ip: IpView) -> bool {
    match ip {
        IpView::V4(octets) => octets.len() == 4,
        IpView::V6(groups) => groups.len() == 8,
    }
}

/// The octet that a text writes: at most three digits, without a leading zero.
pub open spec fn octet_of(s: Seq<char>) -> Option<u8> {
    if text::is_digits(s) && s.len() <= 3 && (s.len() == 1 || s[0] != '0') && text::digits_value(s)
        <= 255 {
        Some(text::digits_value(s) as u8)
    } else {
        None
    }
}

/// The four octets that a dotted text writes.
pub open spec fn parsed_v4(s: Seq<char>) -> Option<Seq<u8>> {
    let parts = text::pieces(s, '.');
    if parts.len() == 4 && (forall|i: int| 0 <= i < 4 ==> octet_of(#[trigger] parts[i]) is Some) {
        Some(Seq::new(4, |i: int| octet_of(parts[i])->0))
    } else {
        None
    }
}

/// The number that hexadecimal digits write.
pub open spec fn hex_value(s: Seq<char>) -> int
    decreases s.len(),
{
    if s.len() == 0 {
        0
    } else {
        hex_value(s.drop_last()) * 16 + outside::hex_digit_value(s.last())
    }
}

/// The group that a text writes: one to four hexadecimal digits.
pub open spec fn group_of(s: Seq<char>) -> Option<u16> {
    if 1 <= s.len() <= 4 && (forall|i: int| 0 <= i < s.len() ==> text::is_hex_digit(#[trigger] s[i])) {
        Some(hex_value(s) as u16)
    } else {
        None
    }
}

/// The groups that texts write one by one.
pub open spec fn groups_of(parts: Seq<Seq<char>>) -> Option<Seq<u16>>
    decreases parts.len(),
{
    if parts.len() == 0 {
        Some(Seq::empty())
    } else {
        match (groups_of(parts.drop_last()), group_of(parts.last())) {
            (Some(before), Some(group)) => Some(before.push(group)),
            _ => None,
        }
    }
}

/// Four octets as two groups.
pub open spec fn octet_groups(octets: Seq<u8>) -> Seq<u16> {
    seq![(octets[0] * 256 + octets[1]) as u16, (octets[2] * 256 + octets[3]) as u16]
}

/// The groups that texts write, of which the last may be a dotted address.
pub open spec fn groups_with_v4(parts: Seq<Seq<char>>) -> Option<Seq<u16>> {
    if parts.len() > 0 && parsed_v4(parts.last()) is Some {
        match groups_of(parts.drop_last()) {
            Some(before) => Some(before + octet_groups(parsed_v4(parts.last())->0)),
            None => None,
        }
    } else {
        groups_of(parts)
    }
}

/// The place of the first two colons in a row, from a place on.
pub open spec fn double_colon(s: Seq<char>, from: int) -> Option<int>
    decreases s.len() - from,
{
    if from < 0 || from + 1 >= s.len() {
        None
    } else if s[from] == ':' && s[from + 1] == ':' {
        Some(from)
    } else {
        double_colon(s, from + 1)
    }
}

/// The colon separated parts of one side of a double colon.
pub open spec fn side_parts(s: Seq<char>) -> Seq<Seq<char>> {
    if s.len() == 0 {
        Seq::empty()
    } else {
        text::pieces(s, ':')
    }
}

pub open spec fn zero_groups(n: int) -> Seq<u16> {
    Seq::new(n as nat, |i: int| 0u16)
}

/// The eight groups that a text writes; two colons stand for the zero groups
/// that are left out, one at least.
pub open spec fn parsed_v6(s: Seq<char>) -> Option<Seq<u16>> {
    match double_colon(s, 0) {
        Some(at) => match (
            groups_of(side_parts(s.take(at))),
            groups_with_v4(side_parts(s.skip(at + 2))),
        ) {
            (Some(head), Some(tail)) if head.len() + tail.len() <= 7 => Some(
                head + zero_groups(8 - head.len() - tail.len()) + tail,
            ),
            _ => None,
        },
        None => match groups_with_v4(text::pieces(s, ':')) {
            Some(groups) if groups.len() == 8 => Some(groups),
            _ => None,
        },
    }
}

/// The address that a text writes.
pub open spec fn parsed_ip(s: Seq<char>) -> Option<IpView> {
    match parsed_v4(s) {
        Some(octets) => Some(IpView::V4(octets)),
        None => match parsed_v6(s) {
            Some(groups) => Some(IpView::V6(groups)),
            None => None,
        },
    }
}

/// The dotted notation of four octets.
pub open spec fn v4_text(octets: Seq<u8>) -> Seq<char> {
    text::decimal(octets[0] as nat) + "."@ + text::decimal(octets[1] as nat) + "."@ + text::decimal(
        octets[2] as nat,
    ) + "."@ + text::decimal(octets[3] as nat)
}

/// The lower-case hexadecimal notation of a number, without leading zeros.
pub open spec fn hex_of(n: nat) -> Seq<char>
    decreases n,
{
    if n < 16 {
        seq![outside::hex_char(n as int)]
    } else {
        hex_of(n / 16).push(outside::hex_char((n % 16) as int))
    }
}

/// Groups one after another with colons between them.
pub open spec fn groups_text(groups: Seq<u16>) -> Seq<char> {
    text::joined(groups.map_values(|group: u16| hex_of(group as nat)), ":"@)
}

/// How many zero groups stand in a row from a place on.
pub open spec fn zero_run(groups: Seq<u16>, from: int) -> nat
    decreases groups.len() - from,
{
    if from < 0 || from >= groups.len() || groups[from] != 0 {
        0
    } else {
        1 + zero_run(groups, from + 1)
    }
}

/// The first place below `n` where the longest run of zero groups starts.
pub open spec fn longest_run_start(groups: Seq<u16>, n: nat) -> int
    decreases n,
{
    if n <= 1 {
        0
    } else {
        let before = longest_run_start(groups, (n - 1) as nat);
        if zero_run(groups, n - 1) > zero_run(groups, before) {
            n - 1
        } else {
            before
        }
    }
}

/// The groups hold an IPv4 address in their last two.
pub open spec fn is_mapped(groups: Seq<u16>) -> bool {
    groups[0] == 0 && groups[1] == 0 && groups[2] == 0 && groups[3] == 0 && groups[4] == 0
        && groups[5] == 0xffff
}

/// The octets of the last two groups.
pub open spec fn mapped_octets(groups: Seq<u16>) -> Seq<u8> {
    seq![
        (groups[6] / 256) as u8,
        (groups[6] % 256) as u8,
        (groups[7] / 256) as u8,
        (groups[7] % 256) as u8,
    ]
}

/// The shortest notation of eight groups: the first longest run of two zero
/// groups or more is left out; a mapped IPv4 address is written dotted.
pub open spec fn v6_text(groups: Seq<u16>) -> Seq<char> {
    let start = longest_run_start(groups, 8);
    let run = zero_run(groups, start);
    if is_mapped(groups) {
        "::ffff:"@ + v4_text(mapped_octets(groups))
    } else if run > 1 {
        groups_text(groups.take(start)) + "::"@ + groups_text(groups.skip(start + run as int))
    } else {
        groups_text(groups)
    }
}

/// The text of an address.
pub open spec fn ip_text(ip: IpView) -> Seq<char> {
    match ip {
        IpView::V4(octets) => v4_text(octets),
        IpView::V6(groups) => v6_text(groups),
    }
}

/// Bit `k` of an address, counted from the most significant one.
pub open spec fn ip_bit(ip: IpView, k: int) -> bool {
    match ip {
        IpView::V4(octets) => (octets[k / 8] >> ((7 - k % 8) as u8)) & 1u8 == 1u8,
        IpView::V6(groups) => (groups[k / 16] >> ((15 - k % 16) as u16)) & 1u16 == 1u16,
    }
}

/// How many bits an address has.
pub open spec fn ip_bits(ip: IpView) -> nat {
    match ip {
        IpView::V4(_) => 32,
        IpView::V6(_) => 128,
    }
}

/// The two addresses are of one family and agree in their first `prefix` bits.
pub open spec fn same_network(a: IpView, b: IpView, prefix: nat) -> bool {
    &&& ip_bits(a) == ip_bits(b)
    &&& prefix <= ip_bits(a)
    &&& forall|k: int| 0 <= k < prefix ==> #[trigger] ip_bit(a, k) == ip_bit(b, k)
}

/// The place of the first slash.
pub open spec fn slash_at(s: Seq<char>, from: int) -> Option<int>
    decreases s.len() - from,
{
    if from < 0 || from >= s.len() {
        None
    } else if s[from] == '/' {
        Some(from)
    } else {
        slash_at(s, from + 1)
    }
}

/// The range holds the address: by its prefix, or as the very text of it.
pub open spec fn in_cidr(ip: IpView, cidr: Seq<char>) -> bool {
    match slash_at(cidr, 0) {
        Some(at) => match (
            parsed_ip(cidr.take(at)),
            text::parsed_nat(cidr.skip(at + 1), u32::MAX as nat),
        ) {
            (Some(network), Some(prefix)) => same_network(ip, network, prefix),
            _ => false,
        },
        None => ip_text(ip) == cidr,
    }
}

/// One of the comma separated ranges holds the address.
pub open spec fn in_ranges(ip: IpView, ranges: Seq<char>) -> bool {
    exists|i: int| 0 <= i < text::listed(ranges).len() && in_cidr(ip, #[trigger] text::listed(ranges)[i])
}

/// The octets are those of an address that is reachable from the public internet.
pub open spec fn is_public_v4(o: Seq<u8>) -> bool {
    &&& o[0] != 0
    &&& o[0] != 10
    &&& o[0] != 127
    &&& !(o[0] == 100 && 64 <= o[1] <= 127)
    &&& !(o[0] == 169 && o[1] == 254)
    &&& !(o[0] == 172 && 16 <= o[1] <= 31)
    &&& !(o[0] == 192 && o[1] == 168)
    &&& !(o[0] == 192 && o[1] == 0 && o[2] == 0)
    &&& !(o[0] == 192 && o[1] == 0 && o[2] == 2)
    &&& !(o[0] == 192 && o[1] == 88 && o[2] == 99)
    &&& !(o[0] == 198 && (o[1] == 18 || o[1] == 19))
    &&& !(o[0] == 198 && o[1] == 51 && o[2] == 100)
    &&& !(o[0] == 203 && o[1] == 0 && o[2] == 113)
    &&& o[0] < 224
}

/// All groups are zero but for the last, which may be anything up to a bound.
pub open spec fn is_low(groups: Seq<u16>, max: u16) -> bool {
    &&& groups[7] <= max
    &&& forall|i: int| 0 <= i < 7 ==> #[trigger] groups[i] == 0
}

/// The address is reachable from the public internet.
pub open spec fn is_public(ip: IpView) -> bool {
    match ip {
        IpView::V4(octets) => is_public_v4(octets),
        IpView::V6(g) => if is_mapped(g) {
            is_public_v4(mapped_octets(g))
        } else {
            // Neither unspecified nor loopback, unique local (fc00::/7), link
            // local (fe80::/10), site local (fec0::/10), multicast (ff00::/8)
            // or documentation (2001:db8::/32).
            &&& !is_low(g, 1)
            &&& !(0xfc00 <= g[0] <= 0xfdff)
            &&& !(0xfe80 <= g[0] <= 0xfeff)
            &&& g[0] < 0xff00
            &&& !(g[0] == 0x2001 && g[1] == 0x0db8)
        },
    }
}

/// The address is one of the local host.
pub open spec fn is_loopback(ip: IpView) -> bool {
    match ip {
        IpView::V4(octets) => octets[0] == 127,
        IpView::V6(groups) => is_low(groups, 1) && groups[7] == 1,
    }
}

/// The octet that a text writes.
fn parse_octet(s: &str) -> (r: Option<u8>)
    ensures
        r == octet_of(s@),
{
    let chars = text::chars_of(s);
    if chars.len() == 0 || chars.len() > 3 || (chars.len() > 1 && chars[0] == '0') {
        return None;
    }
    if chars[0] == '+' {
        assert(!text::is_digit(s@[0]));
        return None;
    }
    assert(text::without_sign(s@, '+') == s@);
    match text::parse_nat(s, 255) {
        Some(n) => Some(n as u8),
        None => None,
    }
}

/// The four octets that a dotted text writes.
pub fn parse_v4(s: &str) -> (r: Option<[u8; 4]>)
    ensures
        match r {
            Some(octets) => parsed_v4(s@) == Some(octets@),
            None => parsed_v4(s@) is None,
        },
{
    let parts = text::split_on(s, '.');
    let ghost views = text::views(parts@);
    assert(views.len() == parts@.len());
    if parts.len() != 4 {
        return None;
    }
    assert forall|i: int| 0 <= i < 4 implies views[i] == (#[trigger] parts@[i])@ by {}
    let a = parse_octet(parts[0].as_str());
    let b = parse_octet(parts[1].as_str());
    let c = parse_octet(parts[2].as_str());
    let d = parse_octet(parts[3].as_str());
    assert(octet_of(views[0]) == a && octet_of(views[1]) == b && octet_of(views[2]) == c
        && octet_of(views[3]) == d);
    match (a, b, c, d) {
        (Some(a), Some(b), Some(c), Some(d)) => {
            let octets: [u8; 4] = [a, b, c, d];
            assert(octets@ =~= Seq::new(4, |i: int| octet_of(views[i])->0));
            Some(octets)
        },
        _ => None,
    }
}

/// The number of a hexadecimal digit.
fn hex_digit(c: char) -> (r: u16)
    requires
        text::is_hex_digit(c),
    ensures
        r == outside::hex_digit_value(c),
        r < 16,
{
    if '0' <= c && c <= '9' {
        (c as u8 - 48) as u16
    } else if 'a' <= c {
        (c as u8 - 87) as u16
    } else {
        (c as u8 - 55) as u16
    }
}

/// The group that a text writes.
fn parse_group(s: &str) -> (r: Option<u16>)
    ensures
        r == group_of(s@),
{
    let chars = text::chars_of(s);
    if chars.len() == 0 || chars.len() > 4 {
        return None;
    }
    let mut value: u16 = 0;
    let mut i: usize = 0;
    while i < chars.len()
        invariant
            i <= chars@.len() <= 4,
            chars@ == s@,
            forall|j: int| 0 <= j < i ==> text::is_hex_digit(#[trigger] s@[j]),
            value == hex_value(s@.take(i as int)),
            i == 0 ==> value == 0,
            i == 1 ==> value < 16,
            i == 2 ==> value < 256,
            i == 3 ==> value < 4096,
        decreases chars@.len() - i,
    {
        let c = chars[i];
        if !(('0' <= c && c <= '9') || ('a' <= c && c <= 'f') || ('A' <= c && c <= 'F')) {
            assert(!text::is_hex_digit(s@[i as int]));
            return None;
        }
        assert(s@.take(i + 1).drop_last() =~= s@.take(i as int));
        value = value * 16 + hex_digit(c);
        i += 1;
    }
    assert(s@.take(i as int) =~= s@);
    Some(value)
}

/// The groups that texts write one by one.
fn parse_groups(parts: &Vec<String>, n: usize) -> (r: Option<Vec<u16>>)
    requires
        n <= parts@.len(),
    ensures
        match r {
            Some(groups) => groups_of(text::views(parts@).take(n as int)) == Some(groups@)
                && groups@.len() == n,
            None => groups_of(text::views(parts@).take(n as int)) is None,
        },
    decreases n,
{
    let ghost views = text::views(parts@);
    if n == 0 {
        return Some(Vec::new());
    }
    assert(views.take(n as int).drop_last() =~= views.take(n - 1));
    assert(views.take(n as int).last() == parts@[n - 1]@);
    match parse_groups(parts, n - 1) {
        Some(mut groups) => match parse_group(parts[n - 1].as_str()) {
            Some(group) => {
                groups.push(group);
                Some(groups)
            },
            None => None,
        },
        None => None,
    }
}

/// The groups that texts write, of which the last may be a dotted address.
fn parse_groups_with_v4(parts: &Vec<String>) -> (r: Option<Vec<u16>>)
    ensures
        match r {
            Some(groups) => groups_with_v4(text::views(parts@)) == Some(groups@),
            None => groups_with_v4(text::views(parts@)) is None,
        },
{
    let ghost views = text::views(parts@);
    let n: usize = parts.len();
    assert(views.take(n as int) =~= views);
    if n > 0 {
        assert(views.last() == parts@[n - 1]@);
        if let Some(octets) = parse_v4(parts[n - 1].as_str()) {
            assert(views.drop_last() =~= views.take(n - 1));
            return match parse_groups(parts, n - 1) {
                Some(mut groups) => {
                    let ghost before = groups@;
                    groups.push((octets[0] as u16) * 256 + octets[1] as u16);
                    groups.push((octets[2] as u16) * 256 + octets[3] as u16);
                    assert(groups@ =~= before + octet_groups(octets@));
                    Some(groups)
                },
                None => None,
            };
        }
    }
    parse_groups(parts, n)
}

/// The place of the first two colons in a row.
fn find_double_colon(chars: &Vec<char>) -> (r: Option<usize>)
    ensures
        match r {
            Some(at) => double_colon(chars@, 0) == Some(at as int) && at + 1 < chars@.len(),
            None => double_colon(chars@, 0) is None,
        },
{
    let mut i: usize = 0;
    while i < chars.len() && chars.len() - i > 1
        invariant
            i <= chars@.len(),
            double_colon(chars@, 0) == double_colon(chars@, i as int),
        decreases chars@.len() - i,
    {
        if chars[i] == ':' && chars[i + 1] == ':' {
            return Some(i);
        }
        i += 1;
    }
    None
}

/// The colon separated parts of one side of a double colon.
fn split_side(s: &str) -> (r: Vec<String>)
    ensures
        text::views(r@) == side_parts(s@),
{
    if s.is_empty() {
        let none: Vec<String> = Vec::new();
        assert(text::views(none@) =~= side_parts(s@));
        none
    } else {
        text::split_on(s, ':')
    }
}

/// Eight groups as an array.
fn eight(groups: &Vec<u16>) -> (r: [u16; 8])
    requires
        groups@.len() == 8,
    ensures
        r@ == groups@,
{
    let r: [u16; 8] = [
        groups[0],
        groups[1],
        groups[2],
        groups[3],
        groups[4],
        groups[5],
        groups[6],
        groups[7],
    ];
    assert(r@ =~= groups@);
    r
}

/// The eight groups that a text writes.
pub fn parse_v6(s: &str) -> (r: Option<[u16; 8]>)
    ensures
        match r {
            Some(groups) => parsed_v6(s@) == Some(groups@),
            None => parsed_v6(s@) is None,
        },
{
    let chars = text::chars_of(s);
    let total: usize = chars.len();
    match find_double_colon(&chars) {
        Some(at) => {
            let before = text::string_between(chars.as_slice(), 0, at);
            let after = text::string_between(chars.as_slice(), at + 2, total);
            assert(before@ =~= s@.take(at as int));
            assert(after@ =~= s@.skip(at + 2));
            let head_parts = split_side(before.as_str());
            let tail_parts = split_side(after.as_str());
            assert(text::views(head_parts@).take(head_parts@.len() as int) =~= text::views(
                head_parts@,
            ));
            match (parse_groups(&head_parts, head_parts.len()), parse_groups_with_v4(&tail_parts)) {
                (Some(head), Some(tail)) => {
                    if head.len() > 7 || tail.len() > 7 - head.len() {
                        return None;
                    }
                    let zeros: usize = 8 - head.len() - tail.len();
                    let mut groups: Vec<u16> = Vec::new();
                    let mut i: usize = 0;
                    while i < head.len()
                        invariant
                            i <= head@.len(),
                            groups@ == head@.take(i as int),
                        decreases head@.len() - i,
                    {
                        groups.push(head[i]);
                        i += 1;
                        assert(groups@ =~= head@.take(i as int));
                    }
                    assert(groups@ =~= head@ + zero_groups(0));
                    let mut j: usize = 0;
                    while j < zeros
                        invariant
                            j <= zeros,
                            groups@ == head@ + zero_groups(j as int),
                        decreases zeros - j,
                    {
                        groups.push(0);
                        j += 1;
                        assert(groups@ =~= head@ + zero_groups(j as int));
                    }
                    let mut k: usize = 0;
                    assert(groups@ =~= head@ + zero_groups(zeros as int) + tail@.take(0));
                    while k < tail.len()
                        invariant
                            k <= tail@.len(),
                            groups@ == head@ + zero_groups(zeros as int) + tail@.take(k as int),
                        decreases tail@.len() - k,
                    {
                        groups.push(tail[k]);
                        k += 1;
                        assert(groups@ =~= head@ + zero_groups(zeros as int) + tail@.take(k as int));
                    }
                    assert(tail@.take(k as int) =~= tail@);
                    Some(eight(&groups))
                },
                _ => None,
            }
        },
        None => {
            let parts = text::split_on(s, ':');
            match parse_groups_with_v4(&parts) {
                Some(groups) => if groups.len() == 8 {
                    Some(eight(&groups))
                } else {
                    None
                },
                None => None,
            }
        },
    }
}

/// The meaning of an optional address.
pub open spec fn opt_ip(ip: Option<IpAddress>) -> Option<IpView> {
    match ip {
        Some(address) => Some(address@),
        None => None,
    }
}

/// The address that a text writes.
pub fn parse_ip(s: &str) -> (r: Option<IpAddress>)
    ensures
        opt_ip(r) == parsed_ip(s@),
{
    match parse_v4(s) {
        Some(octets) => Some(IpAddress::V4(octets)),
        None => match parse_v6(s) {
            Some(groups) => Some(IpAddress::V6(groups)),
            None => None,
        },
    }
}

/// The dotted notation of four octets.
fn v4_string(octets: &[u8; 4]) -> (r: String)
    ensures
        r@ == v4_text(octets@),
{
    let mut out = text::u64_text(octets[0] as u64);
    out.append(".");
    out.append(text::u64_text(octets[1] as u64).as_str());
    out.append(".");
    out.append(text::u64_text(octets[2] as u64).as_str());
    out.append(".");
    out.append(text::u64_text(octets[3] as u64).as_str());
    out
}

/// The hexadecimal notation of a number.
fn hex_string(n: u16) -> (r: String)
    ensures
        r@ == hex_of(n as nat),
    decreases n,
{
    let digit: u8 = (n % 16) as u8;
    let c: char = if digit < 10 {
        (digit + 48) as char
    } else {
        (digit + 87) as char
    };
    if n < 16 {
        let mut out = String::new();
        out.push(c);
        assert(out@ =~= seq![outside::hex_char(n as int)]);
        out
    } else {
        let mut out = hex_string(n / 16);
        out.push(c);
        out
    }
}

/// The groups of a stretch with colons between them.
fn groups_string(groups: &[u16; 8], from: usize, to: usize) -> (r: String)
    requires
        from <= to <= 8,
    ensures
        r@ == groups_text(groups@.subrange(from as int, to as int)),
{
    let ghost stretch = groups@.subrange(from as int, to as int);
    let ghost texts = stretch.map_values(|group: u16| hex_of(group as nat));
    let mut parts: Vec<String> = Vec::new();
    let mut i: usize = from;
    while i < to
        invariant
            from <= i <= to <= 8,
            groups@.len() == 8,
            stretch == groups@.subrange(from as int, to as int),
            texts == stretch.map_values(|group: u16| hex_of(group as nat)),
            parts@.len() == i - from,
            forall|j: int| 0 <= j < i - from ==> (#[trigger] parts@[j])@ == texts[j],
        decreases to - i,
    {
        parts.push(hex_string(groups[i]));
        i += 1;
    }
    assert(text::views(parts@) =~= texts);
    text::join(&parts, ":")
}

/// How many zero groups stand in a row from a place on.
fn count_zeros(groups: &[u16; 8], from: usize) -> (r: usize)
    requires
        from <= 8,
    ensures
        r == zero_run(groups@, from as int),
        from + r <= 8,
    decreases 8 - from,
{
    if from < 8 && groups[from] == 0 {
        1 + count_zeros(groups, from + 1)
    } else {
        0
    }
}

/// Whether the groups hold an IPv4 address in their last two.
fn mapped(groups: &[u16; 8]) -> (r: bool)
    ensures
        r == is_mapped(groups@),
{
    groups[0] == 0 && groups[1] == 0 && groups[2] == 0 && groups[3] == 0 && groups[4] == 0
        && groups[5] == 0xffff
}

/// The octets of the last two groups.
fn low_octets(groups: &[u16; 8]) -> (r: [u8; 4])
    ensures
        r@ == mapped_octets(groups@),
{
    let r: [u8; 4] = [
        (groups[6] / 256) as u8,
        (groups[6] % 256) as u8,
        (groups[7] / 256) as u8,
        (groups[7] % 256) as u8,
    ];
    assert(r@ =~= mapped_octets(groups@));
    r
}

/// The shortest notation of eight groups.
fn v6_string(groups: &[u16; 8]) -> (r: String)
    ensures
        r@ == v6_text(groups@),
{
    if mapped(groups) {
        let mut out = "::ffff:".to_string();
        let octets = low_octets(groups);
        out.append(v4_string(&octets).as_str());
        return out;
    }
    let mut start: usize = 0;
    let mut run: usize = count_zeros(groups, 0);
    let mut n: usize = 1;
    while n < 8
        invariant
            1 <= n <= 8,
            start == longest_run_start(groups@, n as nat),
            run == zero_run(groups@, start as int),
            start + run <= 8,
        decreases 8 - n,
    {
        let next = count_zeros(groups, n);
        if next > run {
            start = n;
            run = next;
        }
        n += 1;
    }
    if run > 1 {
        assert(groups@.take(start as int) =~= groups@.subrange(0, start as int));
        assert(groups@.skip(start + run) =~= groups@.subrange(start + run, 8));
        let mut out = groups_string(groups, 0, start);
        out.append("::");
        out.append(groups_string(groups, start + run, 8).as_str());
        out
    } else {
        assert(groups@ =~= groups@.subrange(0, 8));
        groups_string(groups, 0, 8)
    }
}

/// The text of an address.
pub fn ip_string(ip: &IpAddress) -> (r: String)
    ensures
        r@ == ip_text(ip@),
{
    match ip {
        IpAddress::V4(octets) => v4_string(octets),
        IpAddress::V6(groups) => v6_string(groups),
    }
}

/// Whether two addresses are of one family and agree in their first bits.
fn agree(a: &IpAddress, b: &IpAddress, prefix: u64) -> (r: bool)
    ensures
        r == same_network(a@, b@, prefix as nat),
{
    match (a, b) {
        (IpAddress::V4(x), IpAddress::V4(y)) => {
            if prefix > 32 {
                return false;
            }
            let mut k: usize = 0;
            while k < prefix as usize
                invariant
                    k <= prefix <= 32,
                    a@ == IpView::V4(x@),
                    b@ == IpView::V4(y@),
                    x@.len() == 4,
                    y@.len() == 4,
                    forall|j: int| 0 <= j < k ==> #[trigger] ip_bit(a@, j) == ip_bit(b@, j),
                decreases prefix - k,
            {
                let shift: u8 = 7 - (k % 8) as u8;
                if ((x[k / 8] >> shift) & 1 == 1) != ((y[k / 8] >> shift) & 1 == 1) {
                    assert(ip_bit(a@, k as int) != ip_bit(b@, k as int));
                    return false;
                }
                k += 1;
            }
            true
        },
        (IpAddress::V6(x), IpAddress::V6(y)) => {
            if prefix > 128 {
                return false;
            }
            let mut k: usize = 0;
            while k < prefix as usize
                invariant
                    k <= prefix <= 128,
                    a@ == IpView::V6(x@),
                    b@ == IpView::V6(y@),
                    x@.len() == 8,
                    y@.len() == 8,
                    forall|j: int| 0 <= j < k ==> #[trigger] ip_bit(a@, j) == ip_bit(b@, j),
                decreases prefix - k,
            {
                let shift: u16 = 15 - (k % 16) as u16;
                if ((x[k / 16] >> shift) & 1 == 1) != ((y[k / 16] >> shift) & 1 == 1) {
                    assert(ip_bit(a@, k as int) != ip_bit(b@, k as int));
                    return false;
                }
                k += 1;
            }
            true
        },
        _ => false,
    }
}

/// Whether a range holds an address.
pub fn ip_in_cidr(candidate: &IpAddress, cidr: &str) -> (r: bool)
    ensures
        r == in_cidr(candidate@, cidr@),
{
    let chars = text::chars_of(cidr);
    let mut at: usize = 0;
    while at < chars.len() && chars[at] != '/'
        invariant
            at <= chars@.len(),
            chars@ == cidr@,
            slash_at(cidr@, 0) == slash_at(cidr@, at as int),
        decreases chars@.len() - at,
    {
        at += 1;
    }
    if at == chars.len() {
        let own = ip_string(candidate);
        return text::text_eq(own.as_str(), cidr);
    }
    let address = text::string_between(chars.as_slice(), 0, at);
    let width = text::string_between(chars.as_slice(), at + 1, chars.len());
    assert(address@ =~= cidr@.take(at as int));
    assert(width@ =~= cidr@.skip(at + 1));
    match parse_ip(address.as_str()) {
        Some(network) => match text::parse_nat(width.as_str(), 0xffff_ffff) {
            Some(prefix) => agree(candidate, &network, prefix),
            None => false,
        },
        None => false,
    }
}

/// Whether one of the comma separated ranges holds an address.
pub fn ip_in_ranges(candidate: &IpAddress, ranges: &str) -> (r: bool)
    ensures
        r == in_ranges(candidate@, ranges@),
{
    let entries = text::list_entries(ranges);
    let ghost listed = text::listed(ranges@);
    let mut i: usize = 0;
    while i < entries.len()
        invariant
            i <= entries@.len(),
            listed == text::listed(ranges@),
            text::views(entries@) == listed,
            forall|j: int| 0 <= j < i ==> !in_cidr(candidate@, #[trigger] listed[j]),
        decreases entries@.len() - i,
    {
        assert(text::views(entries@)[i as int] == entries@[i as int]@);
        if ip_in_cidr(candidate, entries[i].as_str()) {
            assert(in_cidr(candidate@, listed[i as int]));
            return true;
        }
        i += 1;
    }
    assert(text::views(entries@).len() == entries@.len());
    false
}

/// Whether the octets are those of a publicly reachable address.
fn public_v4(o: &[u8; 4]) -> (r: bool)
    ensures
        r == is_public_v4(o@),
{
    o[0] != 0 && o[0] != 10 && o[0] != 127 && !(o[0] == 100 && 64 <= o[1] && o[1] <= 127) && !(o[0]
        == 169 && o[1] == 254) && !(o[0] == 172 && 16 <= o[1] && o[1] <= 31) && !(o[0] == 192
        && o[1] == 168) && !(o[0] == 192 && o[1] == 0 && o[2] == 0) && !(o[0] == 192 && o[1] == 0
        && o[2] == 2) && !(o[0] == 192 && o[1] == 88 && o[2] == 99) && !(o[0] == 198 && (o[1] == 18
        || o[1] == 19)) && !(o[0] == 198 && o[1] == 51 && o[2] == 100) && !(o[0] == 203 && o[1]
        == 0 && o[2] == 113) && o[0] < 224
}

/// Whether all groups are zero but for a small last one.
fn low(g: &[u16; 8], max: u16) -> (r: bool)
    ensures
        r == is_low(g@, max),
{
    let r = g[0] == 0 && g[1] == 0 && g[2] == 0 && g[3] == 0 && g[4] == 0 && g[5] == 0 && g[6] == 0
        && g[7] <= max;
    assert(r == is_low(g@, max)) by {
        assert(g@[0] == 0 || g@[0] != 0);
        if is_low(g@, max) {
            assert(g@[0] == 0 && g@[1] == 0 && g@[2] == 0 && g@[3] == 0 && g@[4] == 0 && g@[5] == 0
                && g@[6] == 0);
        }
    }
    r
}

/// Whether an address is reachable from the public internet.
pub fn is_public_ip(ip: &IpAddress) -> (r: bool)
    ensures
        r == is_public(ip@),
{
    match ip {
        IpAddress::V4(octets) => public_v4(octets),
        IpAddress::V6(g) => if mapped(g) {
            let octets = low_octets(g);
            public_v4(&octets)
        } else {
            !low(g, 1) && !(0xfc00 <= g[0] && g[0] <= 0xfdff) && !(0xfe80 <= g[0] && g[0]
                <= 0xfeff) && g[0] < 0xff00 && !(g[0] == 0x2001 && g[1] == 0x0db8)
        },
    }
}

/// Whether an address is one of the local host.
pub fn is_loopback_ip(ip: &IpAddress) -> (r: bool)
    ensures
        r == is_loopback(ip@),
{
    match ip {
        IpAddress::V4(octets) => octets[0] == 127,
        IpAddress::V6(groups) => low(groups, 1) && groups[7] == 1,
    }
}

/// Every address lies in its own network, whatever the prefix.
pub proof fn law_address_in_own_network(ip: IpView, prefix: nat)
    requires
        prefix <= ip_bits(ip),
    ensures
        same_network(ip, ip, prefix),
{
}

/// A prefix of no bits covers every address of the family, and no other.
pub proof fn law_empty_prefix_covers_the_family(a: IpView, b: IpView)
    ensures
        same_network(a, b, 0) == (ip_bits(a) == ip_bits(b)),
{
}

/// Addresses that share a network share every wider one.
pub proof fn law_wider_network(a: IpView, b: IpView, narrow: nat, wide: nat)
    requires
        same_network(a, b, narrow),
        wide <= narrow,
    ensures
        same_network(a, b, wide),
{
}

/// Sharing a network does not depend on the order, and carries over.
pub proof fn law_networks_partition(a: IpView, b: IpView, c: IpView, prefix: nat)
    requires
        same_network(a, b, prefix),
    ensures
        same_network(b, a, prefix),
        same_network(b, c, prefix) ==> same_network(a, c, prefix),
{
    assert forall|k: int| 0 <= k < prefix implies #[trigger] ip_bit(b, k) == ip_bit(a, k) by {
        assert(ip_bit(a, k) == ip_bit(b, k));
    }
    if same_network(b, c, prefix) {
        assert forall|k: int| 0 <= k < prefix implies #[trigger] ip_bit(a, k) == ip_bit(c, k) by {
            assert(ip_bit(b, k) == ip_bit(c, k));
        }
    }
}

/// No loopback address is public.
pub proof fn law_loopback_is_not_public(ip: IpView)
    requires
        is_address(ip),
        is_loopback(ip),
    ensures
        !is_public(ip),
{
    if let IpView::V6(g) = ip {
        assert(g[5] == 0);
    }
}

} // verus!
