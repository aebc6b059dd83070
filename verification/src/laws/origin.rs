//! What the edge is owed: whose word on the client and its TLS values counts,
//! which header gives it, and what an attestation binds.
use vstd::prelude::*;
use crate::headers;
use crate::headers::Headers;
use crate::ip;
use crate::ip::{IpAddress, IpView};
use crate::origin;
use crate::origin::TrustedProxies;
use crate::outside;
use crate::text;
use crate::text_laws;
use crate::tls;
use crate::tls::{TlsAttestationContext, TlsFingerprint};

verus! {

/// The address lies in one of the listed ranges.
pub open spec fn lies_in(address: IpView, ranges: Option<String>) -> bool {
    ranges matches Some(list) && ip::in_ranges(address, list@)
}

/// A header is looked up by name, in whatever case; the first one counts, and
/// one whose value is no text counts as absent.
pub proof fn law_first_header_is_read(headers: Headers, name: &str, value: Option<&str>, at: int)
    requires
        call_ensures(Headers::get, (&headers, name), value),
        0 <= at <= headers@.len(),
        forall|i: int|
            0 <= i < at ==> !text::same_ignoring_case((#[trigger] headers@[i]).0, name@),
        at < headers@.len() ==> text::same_ignoring_case(headers@[at].0, name@),
    ensures
        at < headers@.len() ==> text::opt_str_view(value) == headers@[at].1,
        at == headers@.len() ==> value is None,
{
    lemma_header_text(headers@, name@, at);
}

/// The first header with a name is the one that is found.
pub proof fn lemma_header_text(
    entries: Seq<(Seq<char>, Option<Seq<char>>)>,
    name: Seq<char>,
    at: int,
)
    requires
        0 <= at <= entries.len(),
        forall|i: int|
            0 <= i < at ==> !text::same_ignoring_case((#[trigger] entries[i]).0, name),
        at < entries.len() ==> text::same_ignoring_case(entries[at].0, name),
    ensures
        at < entries.len() ==> headers::header_text(entries, name) == entries[at].1,
        at == entries.len() ==> headers::header_text(entries, name) is None,
    decreases at,
{
    if at > 0 {
        assert(!text::same_ignoring_case(entries[0].0, name));
        let rest = entries.drop_first();
        assert forall|i: int| 0 <= i < at - 1 implies !text::same_ignoring_case(
            (#[trigger] rest[i]).0,
            name,
        ) by {
            assert(rest[i] == entries[i + 1]);
        }
        lemma_header_text(rest, name, at - 1);
    }
}

/// What the CDN observed of a TLS handshake is kept under its own name: the JA3
/// value of `cf-ja3-hash`, the JA4 value of `cf-ja4`, each in normal form.
pub proof fn law_cdn_observations_are_kept(
    peer: IpAddress,
    headers: Headers,
    proxies: TrustedProxies,
    shown_ja3: Option<&str>,
    shown_ja4: Option<&str>,
    ja3: Option<String>,
    ja4: Option<String>,
    found: Option<TlsFingerprint>,
)
    requires
        lies_in(peer@, proxies.cdn),
        call_ensures(Headers::get, (&headers, "cf-ja3-hash"), shown_ja3),
        call_ensures(Headers::get, (&headers, "cf-ja4"), shown_ja4),
        call_ensures(tls::normalize_ja3, (shown_ja3,), ja3),
        call_ensures(tls::normalize_ja4, (shown_ja4,), ja4),
        call_ensures(origin::trusted_tls_fingerprint, (&peer, &headers, &proxies), found),
    ensures
        found is Some <==> ja3 is Some || ja4 is Some,
        found matches Some(fingerprint) ==> text::opt_view(fingerprint.ja3) == text::opt_view(ja3)
            && text::opt_view(fingerprint.ja4) == text::opt_view(ja4) && fingerprint.source@
            == "cloudflare"@,
{
}

/// What another trusted proxy observed of a TLS handshake is kept likewise, from
/// `x-asd-tls-ja3` and `x-asd-tls-ja4`.
pub proof fn law_proxy_observations_are_kept(
    peer: IpAddress,
    headers: Headers,
    proxies: TrustedProxies,
    shown_ja3: Option<&str>,
    shown_ja4: Option<&str>,
    ja3: Option<String>,
    ja4: Option<String>,
    found: Option<TlsFingerprint>,
)
    requires
        !lies_in(peer@, proxies.cdn),
        lies_in(peer@, proxies.proxies),
        call_ensures(Headers::get, (&headers, "x-asd-tls-ja3"), shown_ja3),
        call_ensures(Headers::get, (&headers, "x-asd-tls-ja4"), shown_ja4),
        call_ensures(tls::normalize_ja3, (shown_ja3,), ja3),
        call_ensures(tls::normalize_ja4, (shown_ja4,), ja4),
        call_ensures(origin::trusted_tls_fingerprint, (&peer, &headers, &proxies), found),
    ensures
        found is Some <==> ja3 is Some || ja4 is Some,
        found matches Some(fingerprint) ==> text::opt_view(fingerprint.ja3) == text::opt_view(ja3)
            && text::opt_view(fingerprint.ja4) == text::opt_view(ja4) && fingerprint.source@
            == "envoy"@,
{
}

/// Nobody else is believed: a peer outside both lists names neither a client
/// nor a fingerprint.
pub proof fn law_strangers_are_not_believed(
    peer: IpAddress,
    headers: Headers,
    proxies: TrustedProxies,
    found: Option<TlsFingerprint>,
    client: Option<String>,
    trusted: bool,
)
    requires
        call_ensures(origin::trusted_tls_fingerprint, (&peer, &headers, &proxies), found),
        call_ensures(origin::trusted_originating_client_ip, (&peer, &headers, &proxies), client),
        call_ensures(origin::is_trusted_proxy, (&peer, &proxies), trusted),
    ensures
        trusted <==> lies_in(peer@, proxies.cdn) || lies_in(peer@, proxies.proxies),
        !trusted ==> found is None && client is None,
{
}

/// The CDN names its client in `cf-connecting-ip`; a valid address there decides.
pub proof fn law_cdn_names_its_client(
    peer: IpAddress,
    headers: Headers,
    proxies: TrustedProxies,
    value: &str,
    address: IpView,
    client: Option<String>,
)
    requires
        lies_in(peer@, proxies.cdn),
        call_ensures(Headers::get, (&headers, "cf-connecting-ip"), Some(value)),
        ip::parsed_ip(text::trimmed(value@)) == Some(address),
        call_ensures(origin::trusted_originating_client_ip, (&peer, &headers, &proxies), client),
    ensures
        client matches Some(name) && name@ == ip::ip_text(address),
{
}

/// Another trusted proxy names the client in `x-forwarded-for`: the last address
/// there that is no trusted proxy itself. Where there is none, no client is named.
pub proof fn law_proxies_forward_the_client(
    peer: IpAddress,
    headers: Headers,
    proxies: TrustedProxies,
    value: &str,
    at: int,
    client: Option<String>,
)
    requires
        !lies_in(peer@, proxies.cdn),
        lies_in(peer@, proxies.proxies),
        call_ensures(Headers::get, (&headers, "x-forwarded-for"), Some(value)),
        call_ensures(origin::trusted_originating_client_ip, (&peer, &headers, &proxies), client),
        -1 <= at < text::pieces(value@, ',').len(),
        forall|i: int|
            at < i < text::pieces(value@, ',').len() ==> match ip::parsed_ip(
                text::trimmed(#[trigger] text::pieces(value@, ',')[i]),
            ) {
                Some(address) => lies_in(address, proxies.cdn) || lies_in(
                    address,
                    proxies.proxies,
                ),
                None => true,
            },
        at >= 0 ==> (ip::parsed_ip(text::trimmed(text::pieces(value@, ',')[at])) matches Some(
            address,
        ) && !lies_in(address, proxies.cdn) && !lies_in(address, proxies.proxies)),
    ensures
        at >= 0 ==> (client matches Some(name) && name@ == ip::ip_text(
            ip::parsed_ip(text::trimmed(text::pieces(value@, ',')[at]))->0,
        )),
        at == -1 ==> client is None,
{
    lemma_last_untrusted(text::pieces(value@, ','), proxies, at);
}

/// The last address that is no trusted proxy is the one that is found.
proof fn lemma_last_untrusted(parts: Seq<Seq<char>>, proxies: TrustedProxies, at: int)
    requires
        -1 <= at < parts.len(),
        forall|i: int|
            at < i < parts.len() ==> match ip::parsed_ip(text::trimmed(#[trigger] parts[i])) {
                Some(address) => lies_in(address, proxies.cdn) || lies_in(
                    address,
                    proxies.proxies,
                ),
                None => true,
            },
        at >= 0 ==> (ip::parsed_ip(text::trimmed(parts[at])) matches Some(address) && !lies_in(
            address,
            proxies.cdn,
        ) && !lies_in(address, proxies.proxies)),
    ensures
        at >= 0 ==> origin::last_untrusted(parts, proxies@) == ip::parsed_ip(
            text::trimmed(parts[at]),
        ),
        at == -1 ==> origin::last_untrusted(parts, proxies@) is None,
    decreases parts.len(),
{
    if parts.len() > 0 {
        let last = parts[parts.len() - 1];
        assert(parts.last() == last);
        if at < parts.len() - 1 {
            let rest = parts.drop_last();
            assert forall|i: int| at < i < rest.len() implies match ip::parsed_ip(
                text::trimmed(#[trigger] rest[i]),
            ) {
                Some(address) => lies_in(address, proxies.cdn) || lies_in(
                    address,
                    proxies.proxies,
                ),
                None => true,
            } by {
                assert(rest[i] == parts[i]);
            }
            lemma_last_untrusted(rest, proxies, at);
        }
    }
}

/// Exactly the addresses outside both lists can be blocked.
pub proof fn law_clients_can_be_blocked(
    candidate: &str,
    proxies: TrustedProxies,
    blockable: bool,
)
    requires
        call_ensures(origin::is_blockable_client_ip, (candidate, &proxies), blockable),
    ensures
        ip::parsed_ip(candidate@) is None ==> !blockable,
        ip::parsed_ip(candidate@) matches Some(address) ==> (blockable <==> !lies_in(
            address,
            proxies.cdn,
        ) && !lies_in(address, proxies.proxies)),
{
}

/// A JA3 value is 32 hexadecimal digits, and is kept trimmed and in lower case.
pub proof fn law_ja3_values_are_hexadecimal(value: &str, normal: Option<String>)
    requires
        call_ensures(tls::normalize_ja3, (Some(value),), normal),
    ensures
        normal is Some <==> text::lower(text::trimmed(value@)).len() == 32 && forall|i: int|
            0 <= i < 32 ==> (text::is_digit(#[trigger] text::lower(text::trimmed(value@))[i])
                || 'a' <= text::lower(text::trimmed(value@))[i] <= 'f'),
        normal matches Some(kept) ==> kept@ == text::lower(text::trimmed(value@)),
{
    let folded = text::lower(text::trimmed(value@));
    assert forall|i: int| 0 <= i < folded.len() implies !text::is_upper(#[trigger] folded[i]) by {
        assert(folded[i] == text::lower_char(text::trimmed(value@)[i]));
    }
}

/// A JA4 value is a prefix of ten small letters and digits and two hashes of
/// twelve hexadecimal digits, joined by underscores.
pub proof fn law_ja4_values_have_three_sections(
    value: &str,
    prefix: Seq<char>,
    ciphers: Seq<char>,
    extensions: Seq<char>,
    normal: Option<String>,
)
    requires
        call_ensures(tls::normalize_ja4, (Some(value),), normal),
        text::lower(text::trimmed(value@)) == prefix + seq!['_'] + ciphers + seq!['_'] + extensions,
        !prefix.contains('_'),
        !ciphers.contains('_'),
        !extensions.contains('_'),
    ensures
        normal is Some <==> {
            &&& prefix.len() == 10
            &&& forall|i: int|
                0 <= i < prefix.len() ==> text::is_lower(#[trigger] prefix[i]) || text::is_digit(
                    prefix[i],
                )
            &&& ciphers.len() == 12
            &&& forall|i: int| 0 <= i < ciphers.len() ==> text::is_hex_digit(#[trigger] ciphers[i])
            &&& extensions.len() == 12
            &&& forall|i: int|
                0 <= i < extensions.len() ==> text::is_hex_digit(#[trigger] extensions[i])
        },
        normal matches Some(kept) ==> kept@ == text::lower(text::trimmed(value@)),
{
    let sections = seq![prefix, ciphers, extensions];
    text_laws::law_split_of_join(sections, '_');
    reveal_with_fuel(text::joined, 4);
    assert(sections.drop_last() =~= seq![prefix, ciphers]);
    assert(sections.drop_last().drop_last() =~= seq![prefix]);
    assert(text::joined(sections, seq!['_']) =~= prefix + seq!['_'] + ciphers + seq!['_']
        + extensions);
    let folded = text::lower(text::trimmed(value@));
    assert(text::pieces(folded, '_') =~= sections);
}

/// A value without exactly two underscores is no JA4 value.
pub proof fn law_ja4_values_have_two_underscores(value: &str, normal: Option<String>)
    requires
        call_ensures(tls::normalize_ja4, (Some(value),), normal),
        text::pieces(text::lower(text::trimmed(value@)), '_').len() != 3,
    ensures
        normal is None,
{
}

/// A collector is named by one to 32 letters, digits, underscores and hyphens.
pub proof fn law_sources_are_short_names(value: &str, normal: Option<String>)
    requires
        call_ensures(tls::normalize_tls_source, (Some(value),), normal),
    ensures
        normal is Some <==> 1 <= text::lower(text::trimmed(value@)).len() <= 32 && forall|i: int|
            0 <= i < text::lower(text::trimmed(value@)).len() ==> (text::is_alphanumeric(
                #[trigger] text::lower(text::trimmed(value@))[i],
            ) || text::lower(text::trimmed(value@))[i] == '_' || text::lower(
                text::trimmed(value@),
            )[i] == '-'),
        normal matches Some(kept) ==> kept@ == text::lower(text::trimmed(value@)),
{
}

/// What is absent has no normal form.
pub proof fn law_absent_values_stay_absent(
    ja3: Option<String>,
    ja4: Option<String>,
    source: Option<String>,
)
    requires
        call_ensures(tls::normalize_ja3, (None,), ja3),
        call_ensures(tls::normalize_ja4, (None,), ja4),
        call_ensures(tls::normalize_tls_source, (None,), source),
    ensures
        ja3 is None,
        ja4 is None,
        source is None,
{
}

/// An attestation message is the version, the time, the client, the method, the
/// path, both TLS values and their source, one to a line; a field that holds a
/// line break or a null character is refused.
pub proof fn law_messages_hold_every_field(
    issued_at: i64,
    client_ip: &str,
    method: &str,
    path: &str,
    fingerprint: TlsFingerprint,
    message: Option<Vec<u8>>,
)
    requires
        call_ensures(
            tls::tls_attestation_message,
            (issued_at, client_ip, method, path, &fingerprint),
            message,
        ),
    ensures
        ({
            let ja3 = match fingerprint.ja3 {
                Some(ja3) => ja3@,
                None => Seq::empty(),
            };
            let ja4 = match fingerprint.ja4 {
                Some(ja4) => ja4@,
                None => Seq::empty(),
            };
            let source = fingerprint.source@;
            &&& message matches Some(bytes) ==> bytes@ == vstd::utf8::encode_utf8(
                "v1"@ + "\n"@ + text::decimal_int(issued_at as int) + "\n"@ + text::lower(
                    text::trimmed(client_ip@),
                ) + "\n"@ + text::upper(text::trimmed(method@)) + "\n"@ + path@ + "\n"@ + ja3 + "\n"@
                    + ja4 + "\n"@ + source,
            )
            &&& path@.contains('\n') || path@.contains('\r') || path@.contains('\0') ==> message
                is None
            &&& ja3.contains('\n') || ja3.contains('\r') || ja3.contains('\0') ==> message is None
            &&& ja4.contains('\n') || ja4.contains('\r') || ja4.contains('\0') ==> message is None
            &&& source.contains('\n') || source.contains('\r') || source.contains('\0') ==> message
                is None
        }),
{
    let request = tls::RequestView {
        client_ip: client_ip@,
        method: method@,
        path: path@,
        fingerprint: fingerprint@,
    };
    let f = tls::attestation_fields(issued_at as int, request);
    assert(f[4] == path@);
    assert(f[5] == tls::or_empty(fingerprint@.ja3));
    assert(f[6] == tls::or_empty(fingerprint@.ja4));
    assert(f[7] == fingerprint.source@);
    reveal_with_fuel(text::joined, 9);
    assert(f.drop_last() =~= seq![f[0], f[1], f[2], f[3], f[4], f[5], f[6]]);
    assert(f.drop_last().drop_last() =~= seq![f[0], f[1], f[2], f[3], f[4], f[5]]);
    assert(f.drop_last().drop_last().drop_last() =~= seq![f[0], f[1], f[2], f[3], f[4]]);
    assert(f.drop_last().drop_last().drop_last().drop_last() =~= seq![f[0], f[1], f[2], f[3]]);
    assert(f.drop_last().drop_last().drop_last().drop_last().drop_last() =~= seq![f[0], f[1], f[2]]);
    assert(f.drop_last().drop_last().drop_last().drop_last().drop_last().drop_last() =~= seq![
        f[0],
        f[1],
    ]);
    assert(f.drop_last().drop_last().drop_last().drop_last().drop_last().drop_last().drop_last()
        =~= seq![f[0]]);
}

/// A key of fewer than 32 bytes attests nothing and verifies nothing.
pub proof fn law_short_keys_attest_nothing(
    key: &str,
    issued_at: i64,
    client_ip: &str,
    method: &str,
    path: &str,
    fingerprint: TlsFingerprint,
    created: Option<String>,
    token: Option<&str>,
    max_age_seconds: u64,
    context: TlsAttestationContext<'_>,
    verified: bool,
)
    requires
        text::byte_len(key@) < 32,
        call_ensures(
            tls::create_tls_fingerprint_attestation,
            (key, issued_at, client_ip, method, path, &fingerprint),
            created,
        ),
        call_ensures(
            tls::verify_tls_fingerprint_attestation,
            (token, key, max_age_seconds, &context),
            verified,
        ),
    ensures
        created is None,
        !verified,
{
    assert forall|i: int| 0 <= i < seq![key@].len() implies text::byte_len(
        #[trigger] seq![key@][i],
    ) < 32 by {}
}

/// A token made for a request verifies that request for as long as it is young,
/// by either clock: no further than the maximum age from its time, before or
/// after. It never verifies where no age is allowed.
pub proof fn law_tokens_verify_while_young(
    key: &str,
    issued_at: i64,
    client_ip: &str,
    method: &str,
    path: &str,
    fingerprint: TlsFingerprint,
    created: Option<String>,
    token: &str,
    max_age_seconds: u64,
    context: TlsAttestationContext<'_>,
    verified: bool,
)
    requires
        call_ensures(
            tls::create_tls_fingerprint_attestation,
            (key, issued_at, client_ip, method, path, &fingerprint),
            created,
        ),
        created matches Some(made) && made@ == token@,
        context.client_ip@ == client_ip@,
        context.method@ == method@,
        context.path@ == path@,
        context.fingerprint@ == fingerprint@,
        call_ensures(
            tls::verify_tls_fingerprint_attestation,
            (Some(token), key, max_age_seconds, &context),
            verified,
        ),
    ensures
        verified <==> max_age_seconds > 0 && context.now - issued_at <= max_age_seconds && issued_at
            - context.now <= max_age_seconds,
{
    let request = context.request();
    assert(seq![key@].contains(key@)) by {
        assert(seq![key@][0] == key@);
    }
    if max_age_seconds > 0 && tls::distance(context.now as int, issued_at as int)
        <= max_age_seconds {
        tls::law_attestation_round_trip(
            key@,
            issued_at,
            request,
            seq![key@],
            max_age_seconds as int,
            context.now as int,
        );
    } else {
        tls::lemma_token_parts(key@, issued_at, request);
    }
}

/// A fingerprint without a valid value, or of an unnamed collector, is not attested.
pub proof fn law_only_valid_fingerprints_are_attested(
    key: &str,
    issued_at: i64,
    client_ip: &str,
    method: &str,
    path: &str,
    fingerprint: TlsFingerprint,
    created: Option<String>,
)
    requires
        call_ensures(
            tls::create_tls_fingerprint_attestation,
            (key, issued_at, client_ip, method, path, &fingerprint),
            created,
        ),
    ensures
        tls::ja3_of(text::opt_view(fingerprint.ja3)) is None && tls::ja4_of(
            text::opt_view(fingerprint.ja4),
        ) is None ==> created is None,
        tls::tls_source_of(Some(fingerprint.source@)) is None ==> created is None,
        created matches Some(token) ==> ("v1:"@ + text::decimal_int(issued_at as int)
            + ":"@).is_prefix_of(token@),
{
}

/// An IPv4 address is public unless it lies in a block that is reserved:
/// unspecified, private, shared, loopback, link local, documentation, relay,
/// benchmarking, multicast or reserved for later.
pub proof fn law_reserved_v4_addresses_are_not_public(
    a: u8,
    b: u8,
    c: u8,
    d: u8,
    octets: [u8; 4],
    public: bool,
)
    requires
        octets@ == seq![a, b, c, d],
        call_ensures(ip::is_public_ip, (&IpAddress::V4(octets),), public),
    ensures
        !public <==> {
            ||| a == 0 || a == 10 || a == 127 || a >= 224
            ||| a == 100 && b / 64 == 1
            ||| a == 169 && b == 254
            ||| a == 172 && b / 16 == 1
            ||| a == 192 && b == 168
            ||| a == 192 && b == 0 && (c == 0 || c == 2)
            ||| a == 192 && b == 88 && c == 99
            ||| a == 198 && b / 2 == 9
            ||| a == 198 && b == 51 && c == 100
            ||| a == 203 && b == 0 && c == 113
        },
{
}

/// An IPv6 address is public unless it is unspecified, the loopback, local,
/// multicast or for documentation; one that carries an IPv4 address is as public
/// as that one.
pub proof fn law_reserved_v6_addresses_are_not_public(groups: [u16; 8], public: bool)
    requires
        call_ensures(ip::is_public_ip, (&IpAddress::V6(groups),), public),
    ensures
        ({
            let g = groups@;
            let front = g[0] == 0 && g[1] == 0 && g[2] == 0 && g[3] == 0 && g[4] == 0;
            &&& !(front && g[5] == 0xffff) ==> (!public <==> {
                ||| front && g[5] == 0 && g[6] == 0 && g[7] <= 1
                ||| g[0] / 512 == 0x7e
                ||| 0xfe80 <= g[0] <= 0xfeff
                ||| g[0] >= 0xff00
                ||| g[0] == 0x2001 && g[1] == 0x0db8
            })
            &&& front && g[5] == 0xffff ==> (public <==> ip::is_public(
                IpView::V4(
                    seq![
                        (g[6] / 256) as u8,
                        (g[6] % 256) as u8,
                        (g[7] / 256) as u8,
                        (g[7] % 256) as u8,
                    ],
                ),
            ))
        }),
{
    let g = groups@;
    if ip::is_low(g, 1) {
        assert(g[0] == 0 && g[1] == 0 && g[2] == 0 && g[3] == 0 && g[4] == 0 && g[5] == 0 && g[6]
            == 0);
    }
    if g[0] == 0 && g[1] == 0 && g[2] == 0 && g[3] == 0 && g[4] == 0 && g[5] == 0 && g[6] == 0
        && g[7] <= 1 {
        assert forall|i: int| 0 <= i < 7 implies #[trigger] g[i] == 0 by {}
    }
}

/// The loopback addresses are 127.0.0.0/8 and ::1.
pub proof fn law_loopback_addresses(octets: [u8; 4], groups: [u16; 8], v4: bool, v6: bool)
    requires
        call_ensures(ip::is_loopback_ip, (&IpAddress::V4(octets),), v4),
        call_ensures(ip::is_loopback_ip, (&IpAddress::V6(groups),), v6),
    ensures
        v4 <==> octets@[0] == 127,
        v6 <==> groups@ == seq![0u16, 0, 0, 0, 0, 0, 0, 1],
{
    let g = groups@;
    if ip::is_low(g, 1) && g[7] == 1 {
        assert(g[0] == 0 && g[1] == 0 && g[2] == 0 && g[3] == 0 && g[4] == 0 && g[5] == 0 && g[6]
            == 0);
        assert(g =~= seq![0u16, 0, 0, 0, 0, 0, 0, 1]);
    }
}

} // verus!
