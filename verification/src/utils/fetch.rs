//! The rules around fetching an original from its upstream host: the URL
//! that is requested, and the guard that keeps an untrusted host from
//! reaching internal addresses.
use crate::text::{
    chars_of, extend_chars, free_of, join, join_chars, lemma_split_join,
    pieces, split, split_chars, string_of,
};
use vstd::prelude::*;
use vstd::utf8::encode_utf8;

verus! {

// ---------------------------------------------------------------------------
// Addresses
// ---------------------------------------------------------------------------

/// An IP address, as its octets (IPv4) or its 16-bit segments (IPv6).
#[derive(Clone, Copy, Debug, PartialEq, Eq)]
pub enum IpAddress {
    V4([u8; 4]),
    V6([u16; 8]),
}

/// 127.0.0.0/8 (`Ipv4Addr::is_loopback`).
pub open spec fn v4_is_loopback(o: [u8; 4]) -> bool {
    o[0] == 127
}

/// 10.0.0.0/8, 172.16.0.0/12 and 192.168.0.0/16 (`Ipv4Addr::is_private`).
pub open spec fn v4_is_private(o: [u8; 4]) -> bool {
    ||| o[0] == 10
    ||| (o[0] == 172 && 16 <= o[1] <= 31)
    ||| (o[0] == 192 && o[1] == 168)
}

/// 169.254.0.0/16 (`Ipv4Addr::is_link_local`).
pub open spec fn v4_is_link_local(o: [u8; 4]) -> bool {
    o[0] == 169 && o[1] == 254
}

/// 0.0.0.0 (`Ipv4Addr::is_unspecified`).
pub open spec fn v4_is_unspecified(o: [u8; 4]) -> bool {
    o[0] == 0 && o[1] == 0 && o[2] == 0 && o[3] == 0
}

/// 255.255.255.255 (`Ipv4Addr::is_broadcast`).
pub open spec fn v4_is_broadcast(o: [u8; 4]) -> bool {
    o[0] == 255 && o[1] == 255 && o[2] == 255 && o[3] == 255
}

/// 192.0.2.0/24, 198.51.100.0/24 and 203.0.113.0/24
/// (`Ipv4Addr::is_documentation`).
pub open spec fn v4_is_documentation(o: [u8; 4]) -> bool {
    ||| (o[0] == 192 && o[1] == 0 && o[2] == 2)
    ||| (o[0] == 198 && o[1] == 51 && o[2] == 100)
    ||| (o[0] == 203 && o[1] == 0 && o[2] == 113)
}

/// 224.0.0.0/4 (`Ipv4Addr::is_multicast`).
pub open spec fn v4_is_multicast(o: [u8; 4]) -> bool {
    224 <= o[0] <= 239
}

/// 100.64.0.0/10, the shared address space of carrier-grade NAT.
pub open spec fn v4_is_shared(o: [u8; 4]) -> bool {
    o[0] == 100 && 64 <= o[1] <= 127
}

/// An IPv4 address that an untrusted fetch must not reach.
pub open spec fn v4_is_blocked(o: [u8; 4]) -> bool {
    ||| v4_is_loopback(o)
    ||| v4_is_private(o)
    ||| v4_is_link_local(o)
    ||| v4_is_unspecified(o)
    ||| v4_is_broadcast(o)
    ||| v4_is_documentation(o)
    ||| v4_is_multicast(o)
    ||| o[0] == 0
    ||| v4_is_shared(o)
}

/// ::1 (`Ipv6Addr::is_loopback`).
pub open spec fn v6_is_loopback(s: [u16; 8]) -> bool {
    s[0] == 0 && s[1] == 0 && s[2] == 0 && s[3] == 0 && s[4] == 0 && s[5] == 0 && s[6] == 0
        && s[7] == 1
}

/// :: (`Ipv6Addr::is_unspecified`).
pub open spec fn v6_is_unspecified(s: [u16; 8]) -> bool {
    s[0] == 0 && s[1] == 0 && s[2] == 0 && s[3] == 0 && s[4] == 0 && s[5] == 0 && s[6] == 0
        && s[7] == 0
}

/// ff00::/8 (`Ipv6Addr::is_multicast`).
pub open spec fn v6_is_multicast(s: [u16; 8]) -> bool {
    s[0] >= 0xff00
}

/// fc00::/7, unique local addresses.
pub open spec fn v6_is_unique_local(s: [u16; 8]) -> bool {
    0xfc00 <= s[0] <= 0xfdff
}

/// fe80::/10, link-local unicast.
pub open spec fn v6_is_unicast_link_local(s: [u16; 8]) -> bool {
    0xfe80 <= s[0] <= 0xfebf
}

/// An IPv6 address (not carrying an IPv4 one) that an untrusted fetch must
/// not reach.
pub open spec fn v6_is_blocked(s: [u16; 8]) -> bool {
    ||| v6_is_loopback(s)
    ||| v6_is_unspecified(s)
    ||| v6_is_multicast(s)
    ||| v6_is_unique_local(s)
    ||| v6_is_unicast_link_local(s)
}

/// The IPv4 address that an IPv6 address carries: `::a.b.c.d` (compatible)
/// or `::ffff:a.b.c.d` (mapped), as `Ipv6Addr::to_ipv4_mapped` and
/// `Ipv6Addr::to_ipv4` read them.
pub open spec fn embedded_v4(s: [u16; 8]) -> Option<[u8; 4]> {
    if s[0] == 0 && s[1] == 0 && s[2] == 0 && s[3] == 0 && s[4] == 0 && (s[5] == 0 || s[5]
        == 0xffff) {
        Some([(s[6] / 256) as u8, (s[6] % 256) as u8, (s[7] / 256) as u8, (s[7] % 256) as u8])
    } else {
        None
    }
}

/// An address that an untrusted fetch must not reach: loopback, private,
/// link-local, unspecified, broadcast, documentation, multicast, `0.0.0.0/8`,
/// shared, unique local; an IPv6 address that carries an IPv4 one is judged
/// by that IPv4 address.
pub open spec fn spec_is_blocked_ip(ip: IpAddress) -> bool {
    match ip {
        IpAddress::V4(o) => v4_is_blocked(o),
        IpAddress::V6(s) => match embedded_v4(s) {
            Some(o) => v4_is_blocked(o),
            None => v6_is_blocked(s),
        },
    }
}

fn is_blocked_v4(o: [u8; 4]) -> (r: bool)
    ensures
        r == v4_is_blocked(o),
{
    let a = o[0];
    let b = o[1];
    let c = o[2];
    let d = o[3];
    a == 127 || a == 10 || (a == 172 && 16 <= b && b <= 31) || (a == 192 && b == 168) || (a
        == 169 && b == 254) || (a == 0 && b == 0 && c == 0 && d == 0) || (a == 255 && b == 255
        && c == 255 && d == 255) || (a == 192 && b == 0 && c == 2) || (a == 198 && b == 51 && c
        == 100) || (a == 203 && b == 0 && c == 113) || (224 <= a && a <= 239) || a == 0 || (a
        == 100 && 64 <= b && b <= 127)
}

fn is_blocked_v6(s: [u16; 8]) -> (r: bool)
    ensures
        r == v6_is_blocked(s),
{
    let zero_prefix = s[0] == 0 && s[1] == 0 && s[2] == 0 && s[3] == 0 && s[4] == 0 && s[5] == 0
        && s[6] == 0;
    (zero_prefix && s[7] == 1) || (zero_prefix && s[7] == 0) || s[0] >= 0xff00 || (0xfc00 <= s[0]
        && s[0] <= 0xfdff) || (0xfe80 <= s[0] && s[0] <= 0xfebf)
}

fn embedded_ipv4(s: [u16; 8]) -> (r: Option<[u8; 4]>)
    ensures
        r == embedded_v4(s),
{
    if s[0] == 0 && s[1] == 0 && s[2] == 0 && s[3] == 0 && s[4] == 0 && (s[5] == 0 || s[5]
        == 0xffff) {
        let r = [(s[6] / 256) as u8, (s[6] % 256) as u8, (s[7] / 256) as u8, (s[7] % 256) as u8];
        assert(r@ == embedded_v4(s).unwrap()@);
        Some(r)
    } else {
        None
    }
}

/// Whether an untrusted fetch must not reach `ip`.
pub fn is_blocked_ip(ip: IpAddress) -> (r: bool)
    ensures
        r == spec_is_blocked_ip(ip),
{
    match ip {
        IpAddress::V4(o) => is_blocked_v4(o),
        IpAddress::V6(s) => match embedded_ipv4(s) {
            Some(o) => is_blocked_v4(o),
            None => is_blocked_v6(s),
        },
    }
}

/// An IPv4 address tunnelled in IPv6 (`::ffff:a.b.c.d` or `::a.b.c.d`) is
/// judged by the IPv4 rules, never by the IPv6 ones.
pub proof fn law_tunnelled_v4_judged_as_v4(o: [u8; 4], s: [u16; 8])
    requires
        s[0] == 0 && s[1] == 0 && s[2] == 0 && s[3] == 0 && s[4] == 0,
        s[5] == 0 || s[5] == 0xffff,
        s[6] == o[0] * 256 + o[1],
        s[7] == o[2] * 256 + o[3],
    ensures
        spec_is_blocked_ip(IpAddress::V6(s)) == spec_is_blocked_ip(IpAddress::V4(o)),
{
    let e = embedded_v4(s).unwrap();
    assert(s[6] / 256 == o[0] && s[6] % 256 == o[1]) by (nonlinear_arith)
        requires
            s[6] == o[0] * 256 + o[1],
            o[1] < 256,
    ;
    assert(s[7] / 256 == o[2] && s[7] % 256 == o[3]) by (nonlinear_arith)
        requires
            s[7] == o[2] * 256 + o[3],
            o[3] < 256,
    ;
    assert(e[0] == o[0] && e[1] == o[1] && e[2] == o[2] && e[3] == o[3]);
}

// ---------------------------------------------------------------------------
// The URL that is fetched
// ---------------------------------------------------------------------------

/// Bytes that percent-encoding leaves as they are: ASCII letters, digits and
/// `-`, `.`, `_`, `~`.
pub open spec fn is_unreserved(b: u8) -> bool {
    ||| (48 <= b <= 57)
    ||| (65 <= b <= 90)
    ||| (97 <= b <= 122)
    ||| b == 45
    ||| b == 46
    ||| b == 95
    ||| b == 126
}

/// An upper-case hexadecimal digit.
pub open spec fn hex_digit(d: u8) -> char {
    if d < 10 {
        (d + 48) as char
    } else {
        (d + 55) as char
    }
}

/// Percent-encoding of bytes: unreserved bytes stay, every other byte `b`
/// becomes `%` and its two upper-case hexadecimal digits.
pub open spec fn percent_encode(bytes: Seq<u8>) -> Seq<char>
    decreases bytes.len(),
{
    if bytes.len() == 0 {
        seq![]
    } else {
        let b = bytes[0];
        let head = if is_unreserved(b) {
            seq![b as char]
        } else {
            seq!['%', hex_digit(b / 16), hex_digit(b % 16)]
        };
        head + percent_encode(bytes.drop_first())
    }
}

/// The percent-encoding of the UTF-8 bytes of `s`.
pub open spec fn url_encoded(s: Seq<char>) -> Seq<char> {
    percent_encode(encode_utf8(s))
}

/// Percent-encodes a path segment.
///
/// Trusted wrapper around `urlencoding::encode`, whose source encodes the
/// UTF-8 bytes of its argument and keeps exactly the ASCII letters, digits
/// and `-`, `.`, `_`, `~`, writing every other byte as `%` and two upper-case
/// hexadecimal digits.
#[verifier::external_body]
fn url_encode(s: &str) -> (r: String)
    ensures
        r@ == url_encoded(s@),
{
    urlencoding::encode(s).into_owned()
}

/// The `/`-separated segments of a path, each percent-encoded, joined again
/// with `/`.
pub open spec fn encoded_path(path: Seq<char>) -> Seq<char> {
    join(split(path, '/').map_values(|seg: Seq<char>| url_encoded(seg)), seq!['/'])
}

/// The URL that fetching `path` from `host` requests: `host` followed by the
/// path with each segment percent-encoded.
pub open spec fn spec_fetch_url(host: Seq<char>, path: Seq<char>) -> Seq<char> {
    host + encoded_path(path)
}

/// The URL requested for `path` on `host`.
pub fn fetch_url(host: &str, path: &str) -> (r: String)
    ensures
        r@ == spec_fetch_url(host@, path@),
{
    let p = chars_of(path);
    let segs = split_chars(&p, '/');
    let mut enc: Vec<Vec<char>> = Vec::new();
    let mut i: usize = 0;
    while i < segs.len()
        invariant
            i <= segs.len(),
            pieces(enc@) == pieces(segs@).take(i as int).map_values(
                |seg: Seq<char>| url_encoded(seg),
            ),
        decreases segs.len() - i,
    {
        let seg = string_of(&segs[i]);
        let e = url_encode(seg.as_str());
        let ec = chars_of(e.as_str());
        let ghost before = enc@;
        enc.push(ec);
        assert(pieces(enc@) == pieces(before).push(ec@));
        assert(pieces(segs@).take(i + 1) == pieces(segs@).take(i as int).push(segs@[i as int]@));
        assert(pieces(segs@).take(i + 1).map_values(|seg: Seq<char>| url_encoded(seg)) == pieces(
            segs@,
        ).take(i as int).map_values(|seg: Seq<char>| url_encoded(seg)).push(url_encoded(segs@[i as int]@)));
        i = i + 1;
    }
    assert(pieces(segs@).take(segs.len() as int) == pieces(segs@));
    let slash = vec!['/'];
    assert(slash@ == seq!['/']);
    let joined = join_chars(&enc, &slash);
    let mut out = chars_of(host);
    extend_chars(&mut out, &joined);
    string_of(&out)
}

/// Percent-encoding never writes a `/`: a `/` byte is not unreserved and is
/// written `%2F`, and `%` and hexadecimal digits are not `/`.
pub proof fn lemma_percent_encode_has_no_slash(bytes: Seq<u8>)
    ensures
        free_of(percent_encode(bytes), '/'),
    decreases bytes.len(),
{
    if bytes.len() > 0 {
        let b = bytes[0];
        let head = if is_unreserved(b) {
            seq![b as char]
        } else {
            seq!['%', hex_digit(b / 16), hex_digit(b % 16)]
        };
        lemma_percent_encode_has_no_slash(bytes.drop_first());
        let tail = percent_encode(bytes.drop_first());
        assert(percent_encode(bytes) == head + tail);
        assert(free_of(head, '/')) by {
            if is_unreserved(b) {
                assert(b != 47u8);
            } else {
                assert(b / 16 < 16 && b % 16 < 16);
            }
        }
        assert forall|i: int| 0 <= i < (head + tail).len() implies (head + tail)[i] != '/' by {
            if i >= head.len() {
                assert((head + tail)[i] == tail[i - head.len()]);
            }
        }
    }
}

/// A character that a percent-encoded text may hold: an ASCII letter or
/// digit, `-`, `.`, `_`, `~`, or the `%` that starts an escape.
pub open spec fn url_safe_char(c: char) -> bool {
    ||| ('0' <= c <= '9')
    ||| ('A' <= c <= 'Z')
    ||| ('a' <= c <= 'z')
    ||| c == '-'
    ||| c == '.'
    ||| c == '_'
    ||| c == '~'
    ||| c == '%'
}

/// Percent-encoding leaves nothing but URL-safe characters: no space, `#`,
/// `?`, `/` or non-ASCII character survives it; and each escape is `%`
/// followed by two upper-case hexadecimal digits.
pub proof fn law_percent_encoding_is_url_safe(bytes: Seq<u8>)
    ensures
        forall|i: int| 0 <= i < percent_encode(bytes).len() ==> url_safe_char(#[trigger] percent_encode(bytes)[i]),
    decreases bytes.len(),
{
    if bytes.len() > 0 {
        let b = bytes[0];
        let head = if is_unreserved(b) {
            seq![b as char]
        } else {
            seq!['%', hex_digit(b / 16), hex_digit(b % 16)]
        };
        law_percent_encoding_is_url_safe(bytes.drop_first());
        let tail = percent_encode(bytes.drop_first());
        assert(percent_encode(bytes) == head + tail);
        assert forall|i: int| 0 <= i < head.len() implies url_safe_char(#[trigger] head[i]) by {
            if !is_unreserved(b) {
                assert(b / 16 < 16 && b % 16 < 16);
            }
        }
        assert forall|i: int| 0 <= i < (head + tail).len() implies url_safe_char(#[trigger] (head + tail)[i]) by {
            if i >= head.len() {
                assert((head + tail)[i] == tail[i - head.len()]);
            } else {
                assert((head + tail)[i] == head[i]);
            }
        }
    }
}

/// The URL requested for `path` on `host` is `host` followed by the path's
/// segments, every one of them percent-encoded: split at `/`, the part
/// after the host gives back the path's `/`-separated segments, each
/// encoded on its own, whatever it holds.
pub proof fn law_fetch_url_encodes_every_segment(host: Seq<char>, path: Seq<char>)
    ensures
        spec_fetch_url(host, path).take(host.len() as int) == host,
        split(spec_fetch_url(host, path).skip(host.len() as int), '/') == split(path, '/').map_values(
            |seg: Seq<char>| url_encoded(seg),
        ),
        split(spec_fetch_url(host, path).skip(host.len() as int), '/').len() == split(path, '/').len(),
        forall|i: int|
            0 <= i < split(path, '/').len() ==> #[trigger] split(
                spec_fetch_url(host, path).skip(host.len() as int),
                '/',
            )[i] == url_encoded(split(path, '/')[i]),
{
    let segs = split(path, '/');
    let enc = segs.map_values(|seg: Seq<char>| url_encoded(seg));
    crate::text::lemma_split_nonempty(path, '/');
    assert forall|j: int| 0 <= j < enc.len() implies free_of(#[trigger] enc[j], '/') by {
        lemma_percent_encode_has_no_slash(encode_utf8(segs[j]));
    }
    lemma_split_join(enc, '/');
    let url = spec_fetch_url(host, path);
    assert(url.skip(host.len() as int) == join(enc, seq!['/']));
    assert(url.take(host.len() as int) == host);
}

// ---------------------------------------------------------------------------
// The guard on untrusted targets
// ---------------------------------------------------------------------------

/// The host of a parsed URL.
#[derive(Clone, Debug)]
pub enum TargetHost {
    Domain(String),
    V4([u8; 4]),
    V6([u16; 8]),
}

/// What the guard reads of a URL: its scheme, its port (given, or the
/// scheme's default) and its host.
#[derive(Clone, Debug)]
pub struct ParsedTarget {
    pub scheme: String,
    pub port: Option<u16>,
    pub host: Option<TargetHost>,
}

/// What `url::Url::parse` makes of a URL, read as scheme, port and host; no
/// value where it refuses the URL.
pub uninterp spec fn parsed_url(url: Seq<char>) -> Option<ParsedTarget>;

/// Parses a URL.
///
/// Trusted wrapper around `url::Url::parse` and the accessors `scheme`,
/// `port_or_known_default` and `host`; the result is named, not described:
/// it depends on the text alone.
#[verifier::external_body]
fn parse_target(url: &str) -> (r: Option<ParsedTarget>)
    ensures
        r == parsed_url(url@),
{
    let u = url::Url::parse(url).ok()?;
    let host = match u.host() {
        Some(url::Host::Domain(d)) => Some(TargetHost::Domain(d.to_string())),
        Some(url::Host::Ipv4(ip)) => Some(TargetHost::V4(ip.octets())),
        Some(url::Host::Ipv6(ip)) => Some(TargetHost::V6(ip.segments())),
        None => None,
    };
    Some(ParsedTarget { scheme: u.scheme().to_string(), port: u.port_or_known_default(), host })
}

/// What the guard decides for an untrusted target.
#[derive(Clone, Debug)]
pub enum GuardDecision {
    /// Refused before any request: malformed, not HTTP(S), no port, no host,
    /// or an internal address.
    Blocked,
    /// An address literal that may be reached as it is.
    Direct,
    /// A domain, to be resolved and checked before the request, and then
    /// reached only at the addresses checked.
    Resolve { domain: String, port: u16 },
}

pub open spec fn is_http_scheme(scheme: Seq<char>) -> bool {
    scheme == seq!['h', 't', 't', 'p'] || scheme == seq!['h', 't', 't', 'p', 's']
}

/// The guard's decision on a parsed target.
pub open spec fn spec_guard(parsed: Option<ParsedTarget>) -> GuardDecision {
    match parsed {
        None => GuardDecision::Blocked,
        Some(t) => if !is_http_scheme(t.scheme@) {
            GuardDecision::Blocked
        } else {
            match t.port {
                None => GuardDecision::Blocked,
                Some(port) => match t.host {
                    Some(TargetHost::V4(o)) => if spec_is_blocked_ip(IpAddress::V4(o)) {
                        GuardDecision::Blocked
                    } else {
                        GuardDecision::Direct
                    },
                    Some(TargetHost::V6(s)) => if spec_is_blocked_ip(IpAddress::V6(s)) {
                        GuardDecision::Blocked
                    } else {
                        GuardDecision::Direct
                    },
                    Some(TargetHost::Domain(d)) => GuardDecision::Resolve { domain: d, port },
                    None => GuardDecision::Blocked,
                },
            }
        },
    }
}

/// The guard's decision on a parsed target: only HTTP(S) with a port and a
/// host passes; an address literal passes unless it is internal, and a
/// domain passes on to resolution.
pub fn guard_parsed(parsed: Option<ParsedTarget>) -> (r: GuardDecision)
    ensures
        r == spec_guard(parsed),
{
    match parsed {
        None => GuardDecision::Blocked,
        Some(t) => {
            let sc = chars_of(t.scheme.as_str());
            let http = vec!['h', 't', 't', 'p'];
            let https = vec!['h', 't', 't', 'p', 's'];
            assert(http@ == seq!['h', 't', 't', 'p']);
            assert(https@ == seq!['h', 't', 't', 'p', 's']);
            if !(crate::text::chars_eq(&sc, &http) || crate::text::chars_eq(&sc, &https)) {
                return GuardDecision::Blocked;
            }
            match t.port {
                None => GuardDecision::Blocked,
                Some(port) => match t.host {
                    Some(TargetHost::V4(o)) => if is_blocked_ip(IpAddress::V4(o)) {
                        GuardDecision::Blocked
                    } else {
                        GuardDecision::Direct
                    },
                    Some(TargetHost::V6(s)) => if is_blocked_ip(IpAddress::V6(s)) {
                        GuardDecision::Blocked
                    } else {
                        GuardDecision::Direct
                    },
                    Some(TargetHost::Domain(d)) => GuardDecision::Resolve { domain: d, port },
                    None => GuardDecision::Blocked,
                },
            }
        },
    }
}

/// The guard's decision on an untrusted target URL.
pub fn guard_target(url: &str) -> (r: GuardDecision)
    ensures
        r == spec_guard(parsed_url(url@)),
{
    guard_parsed(parse_target(url))
}

/// The addresses a domain resolved to may be reached: there is at least one,
/// and none is internal.
pub fn addresses_allowed(addrs: &Vec<IpAddress>) -> (r: bool)
    ensures
        r == (addrs@.len() > 0 && forall|i: int|
            0 <= i < addrs@.len() ==> !spec_is_blocked_ip(#[trigger] addrs@[i])),
{
    if addrs.len() == 0 {
        return false;
    }
    let mut i: usize = 0;
    while i < addrs.len()
        invariant
            i <= addrs.len(),
            forall|j: int| 0 <= j < i ==> !spec_is_blocked_ip(#[trigger] addrs@[j]),
        decreases addrs.len() - i,
    {
        if is_blocked_ip(addrs[i]) {
            return false;
        }
        i = i + 1;
    }
    true
}

} // verus!
