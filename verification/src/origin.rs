//! Where a request comes from: which peers are trusted proxies, the client
//! behind them, and the TLS fingerprint that they observed.
use vstd::prelude::*;
use crate::headers;
use crate::headers::Headers;
use crate::ip;
use crate::ip::{IpAddress, IpView};
use crate::text;
use crate::tls;
use crate::tls::{FingerprintView, TlsFingerprint};

verus! {

/// The configured proxy ranges: those of the CDN, and those of other proxies.
#[derive(Debug)]
pub struct TrustedProxies {
    pub cdn: Option<String>,
    pub proxies: Option<String>,
}

/// The texts of the configured ranges.
pub ghost struct ProxiesView {
    pub cdn: Option<Seq<char>>,
    pub proxies: Option<Seq<char>>,
}

impl View for TrustedProxies {
    type V = ProxiesView;

    open spec fn view(&self) -> ProxiesView {
        ProxiesView { cdn: text::opt_view(self.cdn), proxies: text::opt_view(self.proxies) }
    }
}

/// The ranges, where they are configured, hold the address.
pub open spec fn in_setting(address: IpView, ranges: Option<Seq<char>>) -> bool {
    match ranges {
        Some(list) => ip::in_ranges(address, list),
        None => false,
    }
}

/// The address belongs to a trusted proxy of either kind.
pub open spec fn is_trusted(address: IpView, proxies: ProxiesView) -> bool {
    in_setting(address, proxies.cdn) || in_setting(address, proxies.proxies)
}

/// The address that a text writes with white space around it.
pub open spec fn trimmed_ip(s: Seq<char>) -> Option<IpView> {
    ip::parsed_ip(text::trimmed(s))
}

/// The last of the entries that is an address and no trusted proxy.
pub open spec fn last_untrusted(parts: Seq<Seq<char>>, proxies: ProxiesView) -> Option<IpView>
    decreases parts.len(),
{
    if parts.len() == 0 {
        None
    } else {
        match trimmed_ip(parts.last()) {
            Some(address) if !is_trusted(address, proxies) => Some(address),
            _ => last_untrusted(parts.drop_last(), proxies),
        }
    }
}

/// The address that the CDN names as its client.
pub open spec fn cdn_client(
    peer: IpView,
    entries: Seq<(Seq<char>, Option<Seq<char>>)>,
    proxies: ProxiesView,
) -> Option<IpView> {
    if in_setting(peer, proxies.cdn) {
        match headers::header_text(entries, "cf-connecting-ip"@) {
            Some(value) => trimmed_ip(value),
            None => None,
        }
    } else {
        None
    }
}

/// The client behind a trusted peer: the one that the CDN names, else the last
/// forwarded address that is no trusted proxy itself.
pub open spec fn originating_ip(
    peer: IpView,
    entries: Seq<(Seq<char>, Option<Seq<char>>)>,
    proxies: ProxiesView,
) -> Option<IpView> {
    match cdn_client(peer, entries, proxies) {
        Some(address) => Some(address),
        None => if !is_trusted(peer, proxies) {
            None
        } else {
            match headers::header_text(entries, "x-forwarded-for"@) {
                Some(value) => last_untrusted(text::pieces(value, ','), proxies),
                None => None,
            }
        },
    }
}

/// The text of an optional address.
pub open spec fn opt_ip_text(address: Option<IpView>) -> Option<Seq<char>> {
    match address {
        Some(found) => Some(ip::ip_text(found)),
        None => None,
    }
}

/// The fingerprint that two headers name, if one of them holds a valid value.
pub open spec fn fingerprint_from(
    entries: Seq<(Seq<char>, Option<Seq<char>>)>,
    ja3_header: Seq<char>,
    ja4_header: Seq<char>,
    source: Seq<char>,
) -> Option<FingerprintView> {
    let ja3 = tls::ja3_of(headers::header_text(entries, ja3_header));
    let ja4 = tls::ja4_of(headers::header_text(entries, ja4_header));
    if ja3 is Some || ja4 is Some {
        Some(FingerprintView { ja3, ja4, source })
    } else {
        None
    }
}

/// The fingerprint that a trusted peer observed. Only the headers of the
/// peer's own kind count.
pub open spec fn observed_fingerprint(
    peer: IpView,
    entries: Seq<(Seq<char>, Option<Seq<char>>)>,
    proxies: ProxiesView,
) -> Option<FingerprintView> {
    if in_setting(peer, proxies.cdn) {
        fingerprint_from(entries, "cf-ja3-hash"@, "cf-ja4"@, "cloudflare"@)
    } else if in_setting(peer, proxies.proxies) {
        fingerprint_from(entries, "x-asd-tls-ja3"@, "x-asd-tls-ja4"@, "envoy"@)
    } else {
        None
    }
}

/// A text that may be blocked: an address that is no trusted proxy.
pub open spec fn is_blockable(candidate: Seq<char>, proxies: ProxiesView) -> bool {
    match ip::parsed_ip(candidate) {
        Some(address) => !is_trusted(address, proxies),
        None => false,
    }
}

/// Whether configured ranges hold an address.
pub fn ip_in_configured_ranges(candidate: &IpAddress, ranges: &Option<String>) -> (r: bool)
    ensures
        r == in_setting(candidate@, text::opt_view(*ranges)),
{
    match ranges {
        Some(list) => ip::ip_in_ranges(candidate, list.as_str()),
        None => false,
    }
}

/// Whether an address belongs to a trusted proxy.
pub fn is_trusted_proxy(candidate: &IpAddress, proxies: &TrustedProxies) -> (r: bool)
    ensures
        r == is_trusted(candidate@, proxies@),
{
    ip_in_configured_ranges(candidate, &proxies.cdn) || ip_in_configured_ranges(
        candidate,
        &proxies.proxies,
    )
}

/// Whether a text may be blocked.
pub fn is_blockable_client_ip(candidate: &str, proxies: &TrustedProxies) -> (r: bool)
    ensures
        r == is_blockable(candidate@, proxies@),
{
    match ip::parse_ip(candidate) {
        Some(address) => !is_trusted_proxy(&address, proxies),
        None => false,
    }
}

/// The fingerprint that two headers name.
fn read_fingerprint(headers: &Headers, ja3_header: &str, ja4_header: &str, source: &str) -> (r:
    Option<TlsFingerprint>)
    ensures
        opt_fingerprint(r) == fingerprint_from(headers@, ja3_header@, ja4_header@, source@),
{
    let ja3 = tls::normalize_ja3(headers.get(ja3_header));
    let ja4 = tls::normalize_ja4(headers.get(ja4_header));
    if ja3.is_some() || ja4.is_some() {
        Some(TlsFingerprint { ja3, ja4, source: source.to_string() })
    } else {
        None
    }
}

/// The meaning of an optional fingerprint.
pub open spec fn opt_fingerprint(fingerprint: Option<TlsFingerprint>) -> Option<FingerprintView> {
    match fingerprint {
        Some(found) => Some(found@),
        None => None,
    }
}

/// The fingerprint that a trusted peer observed.
pub fn trusted_tls_fingerprint(
    peer: &IpAddress,
    headers: &Headers,
    proxies: &TrustedProxies,
) -> (r: Option<TlsFingerprint>)
    ensures
        opt_fingerprint(r) == observed_fingerprint(peer@, headers@, proxies@),
{
    if ip_in_configured_ranges(peer, &proxies.cdn) {
        read_fingerprint(headers, "cf-ja3-hash", "cf-ja4", "cloudflare")
    } else if ip_in_configured_ranges(peer, &proxies.proxies) {
        read_fingerprint(headers, "x-asd-tls-ja3", "x-asd-tls-ja4", "envoy")
    } else {
        None
    }
}

/// The last of the entries that is an address and no trusted proxy.
fn find_untrusted(parts: &Vec<String>, proxies: &TrustedProxies) -> (r: Option<IpAddress>)
    ensures
        ip::opt_ip(r) == last_untrusted(text::views(parts@), proxies@),
{
    let ghost views = text::views(parts@);
    let mut n: usize = parts.len();
    assert(views.take(n as int) =~= views);
    while n > 0
        invariant
            n <= parts@.len(),
            views == text::views(parts@),
            last_untrusted(views, proxies@) == last_untrusted(views.take(n as int), proxies@),
        decreases n,
    {
        n -= 1;
        let ghost now = views.take(n + 1);
        assert(now.last() == parts@[n as int]@);
        assert(now.drop_last() =~= views.take(n as int));
        let entry = text::trim(parts[n].as_str());
        if let Some(address) = ip::parse_ip(entry.as_str()) {
            if !is_trusted_proxy(&address, proxies) {
                return Some(address);
            }
        }
    }
    None
}

/// The address of the client behind a trusted peer.
pub fn trusted_originating_client_ip(
    peer: &IpAddress,
    headers: &Headers,
    proxies: &TrustedProxies,
) -> (r: Option<String>)
    ensures
        text::opt_view(r) == opt_ip_text(originating_ip(peer@, headers@, proxies@)),
{
    if ip_in_configured_ranges(peer, &proxies.cdn) {
        if let Some(value) = headers.get("cf-connecting-ip") {
            let entry = text::trim(value);
            if let Some(address) = ip::parse_ip(entry.as_str()) {
                return Some(ip::ip_string(&address));
            }
        }
    }
    if !is_trusted_proxy(peer, proxies) {
        return None;
    }
    match headers.get("x-forwarded-for") {
        Some(value) => {
            let parts = text::split_on(value, ',');
            match find_untrusted(&parts, proxies) {
                Some(address) => Some(ip::ip_string(&address)),
                None => None,
            }
        },
        None => None,
    }
}

/// What a peer that is no trusted proxy says in its headers counts for nothing.
pub proof fn law_untrusted_peer_is_ignored(
    peer: IpView,
    entries: Seq<(Seq<char>, Option<Seq<char>>)>,
    proxies: ProxiesView,
)
    requires
        !is_trusted(peer, proxies),
    ensures
        originating_ip(peer, entries, proxies) is None,
        observed_fingerprint(peer, entries, proxies) is None,
{
}

/// A forwarded client is never one of the trusted proxies.
pub proof fn law_forwarded_client_is_no_proxy(parts: Seq<Seq<char>>, proxies: ProxiesView)
    ensures
        last_untrusted(parts, proxies) matches Some(address) ==> !is_trusted(address, proxies),
    decreases parts.len(),
{
    if parts.len() > 0 {
        law_forwarded_client_is_no_proxy(parts.drop_last(), proxies);
    }
}

/// Entries in front of the last untrusted address cannot change it: a client
/// cannot choose its own address by sending a forwarded list.
pub proof fn law_forged_entries_are_ignored(
    forged: Seq<Seq<char>>,
    parts: Seq<Seq<char>>,
    proxies: ProxiesView,
)
    requires
        last_untrusted(parts, proxies) is Some,
    ensures
        last_untrusted(forged + parts, proxies) == last_untrusted(parts, proxies),
    decreases parts.len(),
{
    if parts.len() > 0 {
        assert((forged + parts).last() == parts.last());
        assert((forged + parts).drop_last() =~= forged + parts.drop_last());
        match trimmed_ip(parts.last()) {
            Some(address) if !is_trusted(address, proxies) => {},
            _ => {
                law_forged_entries_are_ignored(forged, parts.drop_last(), proxies);
            },
        }
    }
}

} // verus!
