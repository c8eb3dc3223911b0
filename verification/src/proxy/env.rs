//! Choosing a proxy from the environment: `HTTP_PROXY` for `ws`, `HTTPS_PROXY` for
//! `wss`, `ALL_PROXY` for either, unless `NO_PROXY` exempts the target host. The proxy
//! is written as a URL `scheme://[user[:password]@]host[:port][/...]` with the scheme
//! `http`, `socks5` or `socks5h`.
use vstd::prelude::*;
use vstd::string::*;
use crate::bytes::{bytes_equal, decimal, has_prefix, push_all, starts_with};
use super::{Credentials, ProxyError, ProxyScheme, credentials_view};

verus! {

/// The first index at or after `from` where `s` holds `b`, or the length of `s`.
pub open spec fn find_byte(s: Seq<u8>, b: u8, from: int) -> int
    decreases s.len() - from,
{
    if from < 0 || from >= s.len() {
        s.len() as int
    } else if s[from] == b {
        from
    } else {
        find_byte(s, b, from + 1)
    }
}

/// `find_byte` finds the first occurrence, and stays within the sequence.
pub proof fn lemma_find_byte(s: Seq<u8>, b: u8, from: int)
    requires
        0 <= from <= s.len(),
    ensures
        from <= find_byte(s, b, from) <= s.len(),
        find_byte(s, b, from) < s.len() ==> s[find_byte(s, b, from)] == b,
        forall|k: int| from <= k < find_byte(s, b, from) ==> s[k] != b,
    decreases s.len() - from,
{
    if from < s.len() && s[from] != b {
        lemma_find_byte(s, b, from + 1);
    }
}

/// Searching a suffix is searching the whole from the suffix's start.
pub proof fn lemma_find_byte_skip(s: Seq<u8>, b: u8, pos: int)
    requires
        0 <= pos <= s.len(),
    ensures
        find_byte(s.skip(pos), b, 0) == find_byte(s, b, pos) - pos,
{
    lemma_find_byte(s, b, pos);
    lemma_find_byte(s.skip(pos), b, 0);
    let i = find_byte(s, b, pos);
    let j = find_byte(s.skip(pos), b, 0);
    if j + pos < i {
        assert(s.skip(pos)[j] == s[j + pos]);
    }
    if j + pos > i {
        assert(s.skip(pos)[i - pos] == s[i]);
    }
}

/// The first index at or after `from` where `s` holds `b`, or the length of `s`.
pub fn find_byte_from(s: &[u8], b: u8, from: usize) -> (res: usize)
    requires
        from <= s@.len(),
    ensures
        res == find_byte(s@, b, from as int),
{
    let mut i = from;
    while i < s.len()
        invariant
            from <= i <= s@.len(),
            find_byte(s@, b, from as int) == find_byte(s@, b, i as int),
        decreases s@.len() - i,
    {
        if s[i] == b {
            return i;
        }
        i = i + 1;
    }
    i
}

/// Whether every byte of `s` is an ASCII digit.
pub open spec fn all_digits(s: Seq<u8>) -> bool {
    forall|i: int| 0 <= i < s.len() ==> 48 <= #[trigger] s[i] <= 57
}

/// The number that the decimal digits `s` write.
pub open spec fn digits_value(s: Seq<u8>) -> int
    decreases s.len(),
{
    if s.len() == 0 {
        0
    } else {
        digits_value(s.drop_last()) * 10 + (s.last() - 48)
    }
}

/// A port: one to five decimal digits whose value fits 16 bits.
pub open spec fn parse_port(s: Seq<u8>) -> Option<u16> {
    if 1 <= s.len() <= 5 && all_digits(s) && digits_value(s) <= 65535 {
        Some(digits_value(s) as u16)
    } else {
        None
    }
}

proof fn lemma_digits_bound(s: Seq<u8>)
    requires
        all_digits(s),
    ensures
        0 <= digits_value(s),
        s.len() <= 5 ==> digits_value(s) <= 99999,
        s.len() <= 4 ==> digits_value(s) <= 9999,
        s.len() <= 3 ==> digits_value(s) <= 999,
        s.len() <= 2 ==> digits_value(s) <= 99,
        s.len() <= 1 ==> digits_value(s) <= 9,
    decreases s.len(),
{
    if s.len() > 0 {
        assert(all_digits(s.drop_last()));
        lemma_digits_bound(s.drop_last());
        assert(48 <= s[s.len() - 1] <= 57);
    }
}

/// Reads a port.
pub fn read_port(s: &[u8]) -> (res: Option<u16>)
    ensures
        res == parse_port(s@),
{
    if s.len() < 1 || s.len() > 5 {
        return None;
    }
    let mut value: u32 = 0;
    let mut i: usize = 0;
    while i < s.len()
        invariant
            s@.len() <= 5,
            i <= s@.len(),
            all_digits(s@.take(i as int)),
            value as int == digits_value(s@.take(i as int)),
            value <= 99999,
        decreases s@.len() - i,
    {
        let d = s[i];
        if d < 48 || d > 57 {
            assert(!all_digits(s@));
            return None;
        }
        assert(s@.take(i + 1).drop_last() =~= s@.take(i as int));
        assert(all_digits(s@.take(i + 1)));
        proof {
            lemma_digits_bound(s@.take(i + 1));
        }
        value = value * 10 + (d - 48) as u32;
        i = i + 1;
    }
    assert(s@.take(i as int) =~= s@);
    if value > 65535 {
        None
    } else {
        Some(value as u16)
    }
}

/// The decimal form of a number reads back as that number: it is all digits, at most
/// five of them for a 16-bit value, and their value is the number.
pub proof fn lemma_decimal_reads_back(n: nat)
    ensures
        all_digits(decimal(n)),
        digits_value(decimal(n)) == n,
        1 <= decimal(n).len(),
        n < 10 ==> decimal(n).len() == 1,
        n < 100 ==> decimal(n).len() <= 2,
        n < 1000 ==> decimal(n).len() <= 3,
        n < 10000 ==> decimal(n).len() <= 4,
        n < 100000 ==> decimal(n).len() <= 5,
        n >= 10 ==> decimal(n).len() >= 2,
        n >= 100 ==> decimal(n).len() >= 3,
    decreases n,
{
    let d = decimal(n);
    if n < 10 {
        assert(d.drop_last() =~= Seq::<u8>::empty());
        assert(d.last() == (48 + n) as u8);
        assert(((48 + n) as u8) as int == 48 + n);
        assert(digits_value(d) == digits_value(d.drop_last()) * 10 + (d.last() - 48));
    } else {
        lemma_decimal_reads_back(n / 10);
        assert(d.drop_last() =~= decimal(n / 10));
        assert(d.last() == (48 + n % 10) as u8);
        assert(n == (n / 10) * 10 + n % 10);
        assert(((48 + n % 10) as u8) as int == 48 + n % 10);
        assert(digits_value(d) == digits_value(d.drop_last()) * 10 + (d.last() - 48));
        assert forall|i: int| 0 <= i < d.len() implies 48 <= #[trigger] d[i] <= 57 by {
            if i < d.len() - 1 {
                assert(d[i] == decimal(n / 10)[i]);
            }
        }
    }
}

/// A port written in decimal reads back as that port.
pub proof fn lemma_port_reads_back(p: u16)
    ensures
        parse_port(decimal(p as nat)) == Some(p),
{
    lemma_decimal_reads_back(p as nat);
}

/// The host and the port of `host[:port]`, where a host in square brackets (an IPv6
/// literal) keeps its brackets; without a port the default is taken. An empty host, or
/// anything but a port after the host, is refused.
pub open spec fn parse_host_port(hp: Seq<u8>, default: u16) -> Option<(Seq<u8>, u16)> {
    if hp.len() > 0 && hp[0] == 91 {
        let close = find_byte(hp, 93, 0);
        if close >= hp.len() {
            None
        } else {
            let host = hp.take(close + 1);
            let rest = hp.skip(close + 1);
            if rest.len() == 0 {
                Some((host, default))
            } else if rest[0] == 58 {
                match parse_port(rest.skip(1)) {
                    Some(p) => Some((host, p)),
                    None => None,
                }
            } else {
                None
            }
        }
    } else {
        let colon = find_byte(hp, 58, 0);
        let host = hp.take(colon);
        if host.len() == 0 {
            None
        } else if colon >= hp.len() {
            Some((host, default))
        } else {
            match parse_port(hp.skip(colon + 1)) {
                Some(p) => Some((host, p)),
                None => None,
            }
        }
    }
}

/// Reads `host[:port]`.
pub fn read_host_port(hp: &[u8], default: u16) -> (res: Option<(Vec<u8>, u16)>)
    ensures
        match parse_host_port(hp@, default) {
            Some((h, p)) => res matches Some((v, q)) && v@ == h && q == p,
            None => res is None,
        },
{
    proof {
        lemma_find_byte(hp@, 93, 0);
        lemma_find_byte(hp@, 58, 0);
    }
    if hp.len() > 0 && hp[0] == 91 {
        let close = find_byte_from(hp, 93, 0);
        if close >= hp.len() {
            return None;
        }
        let mut host: Vec<u8> = Vec::new();
        push_all(&mut host, &hp[0..close + 1]);
        let rest = &hp[close + 1..hp.len()];
        assert(rest@ =~= hp@.skip(close + 1));
        if rest.len() == 0 {
            Some((host, default))
        } else if rest[0] == 58 {
            let port_text = &rest[1..rest.len()];
            assert(port_text@ =~= rest@.skip(1));
            match read_port(port_text) {
                Some(p) => Some((host, p)),
                None => None,
            }
        } else {
            None
        }
    } else {
        let colon = find_byte_from(hp, 58, 0);
        if colon == 0 {
            return None;
        }
        let mut host: Vec<u8> = Vec::new();
        push_all(&mut host, &hp[0..colon]);
        assert(host@ =~= hp@.take(colon as int));
        if colon >= hp.len() {
            Some((host, default))
        } else {
            let port_text = &hp[colon + 1..hp.len()];
            assert(port_text@ =~= hp@.skip(colon + 1));
            match read_port(port_text) {
                Some(p) => Some((host, p)),
                None => None,
            }
        }
    }
}

/// The default port of a proxy: 80 for HTTP, 1080 for SOCKS5.
pub open spec fn default_proxy_port(scheme: ProxyScheme) -> u16 {
    match scheme {
        ProxyScheme::Http => 80,
        _ => 1080,
    }
}

/// A proxy named by a URL, as values.
pub struct EndpointView {
    /// The protocol.
    pub scheme: ProxyScheme,
    /// The host, as written in the URL.
    pub host: Seq<u8>,
    /// The port.
    pub port: u16,
    /// The user name and password, as written in the URL.
    pub credentials: Option<(Seq<u8>, Seq<u8>)>,
}

/// A proxy named by a URL.
pub struct ProxyEndpoint {
    /// The protocol.
    pub scheme: ProxyScheme,
    /// The host, as written in the URL (an IPv6 literal keeps its brackets).
    pub host: Vec<u8>,
    /// The port.
    pub port: u16,
    /// The user name and password, as written in the URL (not percent-decoded).
    pub credentials: Option<Credentials>,
}

impl View for ProxyEndpoint {
    type V = EndpointView;

    open spec fn view(&self) -> EndpointView {
        EndpointView {
            scheme: self.scheme,
            host: self.host@,
            port: self.port,
            credentials: credentials_view(self.credentials),
        }
    }
}

/// The scheme of a proxy URL and what follows `://`.
pub open spec fn split_scheme(u: Seq<u8>) -> Option<(ProxyScheme, Seq<u8>)> {
    if has_prefix(u, "http://".spec_bytes()) {
        Some((ProxyScheme::Http, u.skip("http://".spec_bytes().len() as int)))
    } else if has_prefix(u, "socks5://".spec_bytes()) {
        Some((ProxyScheme::Socks5, u.skip("socks5://".spec_bytes().len() as int)))
    } else if has_prefix(u, "socks5h://".spec_bytes()) {
        Some((ProxyScheme::Socks5h, u.skip("socks5h://".spec_bytes().len() as int)))
    } else {
        None
    }
}

/// The credentials of `user[:password]`; a missing password is empty.
pub open spec fn split_userinfo(ui: Seq<u8>) -> (Seq<u8>, Seq<u8>) {
    let c = find_byte(ui, 58, 0);
    (ui.take(c), if c < ui.len() { ui.skip(c + 1) } else { seq![] })
}

/// The proxy that a URL names: its scheme, the credentials before the first `@` of the
/// authority (which ends at the first `/`), and its host and port.
pub open spec fn parse_proxy_url(u: Seq<u8>) -> Option<EndpointView> {
    match split_scheme(u) {
        None => None,
        Some((scheme, rest)) => {
            let authority = rest.take(find_byte(rest, 47, 0));
            let at = find_byte(authority, 64, 0);
            let credentials = if at < authority.len() {
                Some(split_userinfo(authority.take(at)))
            } else {
                None
            };
            let hp = if at < authority.len() {
                authority.skip(at + 1)
            } else {
                authority
            };
            match parse_host_port(hp, default_proxy_port(scheme)) {
                Some((host, port)) => Some(EndpointView { scheme, host, port, credentials }),
                None => None,
            }
        },
    }
}

proof fn lemma_scheme_prefix_bytes()
    ensures
        "http://".spec_bytes() == seq![104u8, 116u8, 116u8, 112u8, 58u8, 47u8, 47u8],
        "socks5://".spec_bytes() == seq![115u8, 111u8, 99u8, 107u8, 115u8, 53u8, 58u8, 47u8, 47u8],
        "socks5h://".spec_bytes() == seq![115u8, 111u8, 99u8, 107u8, 115u8, 53u8, 104u8, 58u8, 47u8, 47u8],
{
    reveal_strlit("http://");
    reveal_strlit("socks5://");
    reveal_strlit("socks5h://");
    assert(is_ascii("http://"));
    assert(is_ascii("socks5://"));
    assert(is_ascii("socks5h://"));
    is_ascii_spec_bytes("http://");
    is_ascii_spec_bytes("socks5://");
    is_ascii_spec_bytes("socks5h://");
    assert("http://".spec_bytes() =~= seq![104u8, 116u8, 116u8, 112u8, 58u8, 47u8, 47u8]);
    assert("socks5://".spec_bytes() =~= seq![115u8, 111u8, 99u8, 107u8, 115u8, 53u8, 58u8, 47u8, 47u8]);
    assert("socks5h://".spec_bytes() =~= seq![115u8, 111u8, 99u8, 107u8, 115u8, 53u8, 104u8, 58u8, 47u8, 47u8]);
}

/// Each of the three schemes is recognised by its prefix, whatever follows it, and
/// what follows `://` is kept as it is.
pub proof fn lemma_schemes_are_recognised(r: Seq<u8>)
    ensures
        split_scheme("http://".spec_bytes() + r) == Some((ProxyScheme::Http, r)),
        split_scheme("socks5://".spec_bytes() + r) == Some((ProxyScheme::Socks5, r)),
        split_scheme("socks5h://".spec_bytes() + r) == Some((ProxyScheme::Socks5h, r)),
{
    lemma_scheme_prefix_bytes();
    let http = "http://".spec_bytes();
    let s5 = "socks5://".spec_bytes();
    let s5h = "socks5h://".spec_bytes();
    assert((http + r).take(7) =~= http);
    assert((http + r).skip(7) =~= r);
    assert((s5 + r).take(7)[0] != http[0]);
    assert((s5 + r).take(9) =~= s5);
    assert((s5 + r).skip(9) =~= r);
    assert((s5h + r).take(7)[0] != http[0]);
    assert((s5h + r).take(9)[6] != s5[6]);
    assert((s5h + r).take(10) =~= s5h);
    assert((s5h + r).skip(10) =~= r);
}

/// `socks5://` and `socks5h://` speak the same protocol to the proxy, so the same rest of
/// the URL names the same proxy: both are read or both are refused, and they agree on
/// the host, the port (also the default one) and the credentials.
pub proof fn lemma_socks5_variants_name_the_same_proxy(r: Seq<u8>)
    ensures
        parse_proxy_url("socks5://".spec_bytes() + r) is Some <==> parse_proxy_url("socks5h://".spec_bytes() + r) is Some,
        parse_proxy_url("socks5://".spec_bytes() + r) matches Some(a) ==> ({
            let b = parse_proxy_url("socks5h://".spec_bytes() + r)->Some_0;
            &&& a.scheme == ProxyScheme::Socks5
            &&& b.scheme == ProxyScheme::Socks5h
            &&& a.host == b.host
            &&& a.port == b.port
            &&& a.credentials == b.credentials
        }),
{
    lemma_schemes_are_recognised(r);
}

proof fn lemma_no_byte(s: Seq<u8>, b: u8)
    requires
        forall|i: int| 0 <= i < s.len() ==> s[i] != b,
    ensures
        find_byte(s, b, 0) == s.len(),
{
    lemma_find_byte(s, b, 0);
}

proof fn lemma_parse_plain_host(u: Seq<u8>, scheme: ProxyScheme, hp: Seq<u8>, h: Seq<u8>)
    requires
        split_scheme(u) == Some((scheme, hp)),
        h.len() > 0,
        h[0] != 91,
        forall|i: int| 0 <= i < h.len() ==> h[i] != 47 && h[i] != 58 && h[i] != 64,
        forall|i: int| 0 <= i < hp.len() ==> hp[i] != 47 && hp[i] != 64,
        h.len() <= hp.len(),
        hp.take(h.len() as int) == h,
        hp.len() == h.len() || (hp[h.len() as int] == 58 && parse_port(hp.skip(h.len() as int + 1)) is Some),
    ensures
        parse_proxy_url(u) == Some(EndpointView {
            scheme,
            host: h,
            port: if hp.len() == h.len() { default_proxy_port(scheme) } else { parse_port(hp.skip(h.len() as int + 1))->Some_0 },
            credentials: None,
        }),
{
    lemma_no_byte(hp, 47);
    assert(hp.take(hp.len() as int) =~= hp);
    lemma_no_byte(hp, 64);
    lemma_find_byte(hp, 58, 0);
    let c = find_byte(hp, 58, 0);
    assert(hp.take(h.len() as int)[0] == hp[0]);
    if c < h.len() {
        assert(hp.take(h.len() as int)[c] == hp[c]);
    }
}

/// A proxy URL without a port gets the default port of its protocol: 80 for
/// `http://`, 1080 for `socks5://` and `socks5h://` alike; the host is kept as written,
/// and there are no credentials.
pub proof fn lemma_proxy_url_default_port(h: Seq<u8>)
    requires
        h.len() > 0,
        h[0] != 91,
        forall|i: int| 0 <= i < h.len() ==> h[i] != 47 && h[i] != 58 && h[i] != 64,
    ensures
        parse_proxy_url("http://".spec_bytes() + h)
            == Some(EndpointView { scheme: ProxyScheme::Http, host: h, port: 80, credentials: None }),
        parse_proxy_url("socks5://".spec_bytes() + h)
            == Some(EndpointView { scheme: ProxyScheme::Socks5, host: h, port: 1080, credentials: None }),
        parse_proxy_url("socks5h://".spec_bytes() + h)
            == Some(EndpointView { scheme: ProxyScheme::Socks5h, host: h, port: 1080, credentials: None }),
{
    lemma_schemes_are_recognised(h);
    assert(h.take(h.len() as int) =~= h);
    lemma_parse_plain_host("http://".spec_bytes() + h, ProxyScheme::Http, h, h);
    lemma_parse_plain_host("socks5://".spec_bytes() + h, ProxyScheme::Socks5, h, h);
    lemma_parse_plain_host("socks5h://".spec_bytes() + h, ProxyScheme::Socks5h, h, h);
}

proof fn lemma_host_port_text(h: Seq<u8>, p: u16)
    requires
        h.len() > 0,
        forall|i: int| 0 <= i < h.len() ==> h[i] != 47 && h[i] != 58 && h[i] != 64,
    ensures
        ({
            let hp = h + seq![58u8] + decimal(p as nat);
            &&& hp.take(h.len() as int) == h
            &&& hp.len() > h.len()
            &&& hp[h.len() as int] == 58
            &&& parse_port(hp.skip(h.len() as int + 1)) == Some(p)
            &&& forall|i: int| 0 <= i < hp.len() ==> hp[i] != 47 && hp[i] != 64
        }),
{
    let hp = h + seq![58u8] + decimal(p as nat);
    let d = decimal(p as nat);
    lemma_decimal_reads_back(p as nat);
    lemma_port_reads_back(p);
    assert(hp.take(h.len() as int) =~= h);
    assert(hp.skip(h.len() as int + 1) =~= d);
    assert forall|i: int| 0 <= i < hp.len() implies hp[i] != 47 && hp[i] != 64 by {
        if i > h.len() {
            assert(hp[i] == d[i - h.len() - 1]);
            assert(48 <= d[i - h.len() - 1] <= 57);
        }
    }
}

proof fn lemma_parse_with_port(prefix: Seq<u8>, scheme: ProxyScheme, h: Seq<u8>, p: u16)
    requires
        h.len() > 0,
        h[0] != 91,
        forall|i: int| 0 <= i < h.len() ==> h[i] != 47 && h[i] != 58 && h[i] != 64,
        split_scheme(prefix + (h + seq![58u8] + decimal(p as nat))) == Some((scheme, h + seq![58u8] + decimal(p as nat))),
    ensures
        parse_proxy_url(prefix + h + seq![58u8] + decimal(p as nat))
            == Some(EndpointView { scheme, host: h, port: p, credentials: None }),
{
    let hp = h + seq![58u8] + decimal(p as nat);
    lemma_host_port_text(h, p);
    assert(prefix + h + seq![58u8] + decimal(p as nat) =~= prefix + hp);
    lemma_parse_plain_host(prefix + hp, scheme, hp, h);
}

/// A port written in a proxy URL is the port, whatever the protocol.
pub proof fn lemma_proxy_url_explicit_port(h: Seq<u8>, p: u16)
    requires
        h.len() > 0,
        h[0] != 91,
        forall|i: int| 0 <= i < h.len() ==> h[i] != 47 && h[i] != 58 && h[i] != 64,
    ensures
        parse_proxy_url("http://".spec_bytes() + h + seq![58u8] + decimal(p as nat))
            == Some(EndpointView { scheme: ProxyScheme::Http, host: h, port: p, credentials: None }),
        parse_proxy_url("socks5://".spec_bytes() + h + seq![58u8] + decimal(p as nat))
            == Some(EndpointView { scheme: ProxyScheme::Socks5, host: h, port: p, credentials: None }),
        parse_proxy_url("socks5h://".spec_bytes() + h + seq![58u8] + decimal(p as nat))
            == Some(EndpointView { scheme: ProxyScheme::Socks5h, host: h, port: p, credentials: None }),
{
    let hp = h + seq![58u8] + decimal(p as nat);
    lemma_schemes_are_recognised(hp);
    lemma_parse_with_port("http://".spec_bytes(), ProxyScheme::Http, h, p);
    lemma_parse_with_port("socks5://".spec_bytes(), ProxyScheme::Socks5, h, p);
    lemma_parse_with_port("socks5h://".spec_bytes(), ProxyScheme::Socks5h, h, p);
}

proof fn lemma_parse_with_credentials(prefix: Seq<u8>, scheme: ProxyScheme, user: Seq<u8>, pass: Seq<u8>, h: Seq<u8>)
    requires
        h.len() > 0,
        h[0] != 91,
        forall|i: int| 0 <= i < h.len() ==> h[i] != 47 && h[i] != 58 && h[i] != 64,
        forall|i: int| 0 <= i < user.len() ==> user[i] != 47 && user[i] != 58 && user[i] != 64,
        forall|i: int| 0 <= i < pass.len() ==> pass[i] != 47 && pass[i] != 64,
        split_scheme(prefix + (user + seq![58u8] + pass + seq![64u8] + h))
            == Some((scheme, user + seq![58u8] + pass + seq![64u8] + h)),
    ensures
        parse_proxy_url(prefix + (user + seq![58u8] + pass + seq![64u8] + h))
            == Some(EndpointView { scheme, host: h, port: default_proxy_port(scheme), credentials: Some((user, pass)) }),
{
    let ui = user + seq![58u8] + pass;
    let r = ui + seq![64u8] + h;
    assert(r =~= user + seq![58u8] + pass + seq![64u8] + h);
    assert forall|i: int| 0 <= i < r.len() implies r[i] != 47 by {
        if i < user.len() {
            assert(r[i] == user[i]);
        } else if user.len() < i < ui.len() {
            assert(r[i] == pass[i - user.len() - 1]);
        } else if i > ui.len() {
            assert(r[i] == h[i - ui.len() - 1]);
        }
    }
    lemma_no_byte(r, 47);
    assert(r.take(r.len() as int) =~= r);
    lemma_find_byte(r, 64, 0);
    let at = find_byte(r, 64, 0);
    if at < ui.len() {
        if at < user.len() {
            assert(r[at] == user[at]);
        } else if at > user.len() {
            assert(r[at] == pass[at - user.len() - 1]);
        }
    }
    if at > ui.len() {
        assert(r[ui.len() as int] == 64u8);
    }
    assert(at == ui.len());
    assert(r.take(at) =~= ui);
    lemma_find_byte(ui, 58, 0);
    let c = find_byte(ui, 58, 0);
    if c < user.len() {
        assert(ui[c] == user[c]);
    }
    if c > user.len() {
        assert(ui[user.len() as int] == 58u8);
    }
    assert(ui.take(c) =~= user);
    assert(ui.skip(c + 1) =~= pass);
    assert(r.skip(at + 1) =~= h);
    assert(h.take(h.len() as int) =~= h);
    lemma_parse_plain_host_port(h, default_proxy_port(scheme));
}

proof fn lemma_parse_plain_host_port(h: Seq<u8>, default: u16)
    requires
        h.len() > 0,
        h[0] != 91,
        forall|i: int| 0 <= i < h.len() ==> h[i] != 58,
    ensures
        parse_host_port(h, default) == Some((h, default)),
{
    lemma_no_byte(h, 58);
    assert(h.take(h.len() as int) =~= h);
}

/// Credentials written before `@` in a proxy URL are the user name, up to the first
/// colon, and the password after it; the host and the default port of the protocol
/// follow as without credentials.
pub proof fn lemma_proxy_url_credentials(user: Seq<u8>, pass: Seq<u8>, h: Seq<u8>)
    requires
        h.len() > 0,
        h[0] != 91,
        forall|i: int| 0 <= i < h.len() ==> h[i] != 47 && h[i] != 58 && h[i] != 64,
        forall|i: int| 0 <= i < user.len() ==> user[i] != 47 && user[i] != 58 && user[i] != 64,
        forall|i: int| 0 <= i < pass.len() ==> pass[i] != 47 && pass[i] != 64,
    ensures
        parse_proxy_url("http://".spec_bytes() + (user + seq![58u8] + pass + seq![64u8] + h))
            == Some(EndpointView { scheme: ProxyScheme::Http, host: h, port: 80, credentials: Some((user, pass)) }),
        parse_proxy_url("socks5://".spec_bytes() + (user + seq![58u8] + pass + seq![64u8] + h))
            == Some(EndpointView { scheme: ProxyScheme::Socks5, host: h, port: 1080, credentials: Some((user, pass)) }),
        parse_proxy_url("socks5h://".spec_bytes() + (user + seq![58u8] + pass + seq![64u8] + h))
            == Some(EndpointView { scheme: ProxyScheme::Socks5h, host: h, port: 1080, credentials: Some((user, pass)) }),
{
    let r = user + seq![58u8] + pass + seq![64u8] + h;
    lemma_schemes_are_recognised(r);
    lemma_parse_with_credentials("http://".spec_bytes(), ProxyScheme::Http, user, pass, h);
    lemma_parse_with_credentials("socks5://".spec_bytes(), ProxyScheme::Socks5, user, pass, h);
    lemma_parse_with_credentials("socks5h://".spec_bytes(), ProxyScheme::Socks5h, user, pass, h);
}

fn read_scheme(u: &[u8]) -> (res: Option<(ProxyScheme, usize)>)
    ensures
        match split_scheme(u@) {
            Some((scheme, rest)) => res matches Some((s, n)) && s == scheme && n <= u@.len() && u@.skip(n as int) == rest,
            None => res is None,
        },
{
    let http = "http://".as_bytes();
    let socks5 = "socks5://".as_bytes();
    let socks5h = "socks5h://".as_bytes();
    if starts_with(u, http) {
        Some((ProxyScheme::Http, http.len()))
    } else if starts_with(u, socks5) {
        Some((ProxyScheme::Socks5, socks5.len()))
    } else if starts_with(u, socks5h) {
        Some((ProxyScheme::Socks5h, socks5h.len()))
    } else {
        None
    }
}

/// Reads a proxy URL.
pub fn read_proxy_url(url: &[u8]) -> (res: Option<ProxyEndpoint>)
    ensures
        match parse_proxy_url(url@) {
            Some(e) => res matches Some(r) && r@ == e,
            None => res is None,
        },
{
    let (scheme, n) = match read_scheme(url) {
        Some(x) => x,
        None => {
            return None;
        },
    };
    let rest = &url[n..url.len()];
    proof {
        lemma_find_byte(rest@, 47, 0);
    }
    let slash = find_byte_from(rest, 47, 0);
    let authority = &rest[0..slash];
    proof {
        lemma_find_byte(authority@, 64, 0);
    }
    let at = find_byte_from(authority, 64, 0);
    let credentials = if at < authority.len() {
        let ui = &authority[0..at];
        proof {
            lemma_find_byte(ui@, 58, 0);
        }
        let c = find_byte_from(ui, 58, 0);
        let mut username: Vec<u8> = Vec::new();
        push_all(&mut username, &ui[0..c]);
        let mut password: Vec<u8> = Vec::new();
        if c < ui.len() {
            push_all(&mut password, &ui[c + 1..ui.len()]);
            assert(password@ =~= ui@.skip(c + 1));
        } else {
            assert(password@ =~= seq![]);
        }
        assert(username@ =~= ui@.take(c as int));
        Some(Credentials { username, password })
    } else {
        None
    };
    let hp = if at < authority.len() {
        &authority[at + 1..authority.len()]
    } else {
        authority
    };
    assert(at < authority@.len() ==> hp@ =~= authority@.skip(at + 1));
    let default: u16 = match scheme {
        ProxyScheme::Http => 80,
        _ => 1080,
    };
    match read_host_port(hp, default) {
        Some((host, port)) => Some(ProxyEndpoint { scheme, host, port, credentials }),
        None => None,
    }
}

/// `s` without the spaces at either end.
pub open spec fn trim_spaces(s: Seq<u8>) -> Seq<u8>
    decreases s.len(),
{
    if s.len() > 0 && s[0] == 32 {
        trim_spaces(s.skip(1))
    } else if s.len() > 0 && s.last() == 32 {
        trim_spaces(s.drop_last())
    } else {
        s
    }
}

fn trim(s: &[u8]) -> (res: &[u8])
    ensures
        res@ == trim_spaces(s@),
    decreases s@.len(),
{
    if s.len() > 0 && s[0] == 32 {
        let t = &s[1..s.len()];
        assert(t@ =~= s@.skip(1));
        trim(t)
    } else if s.len() > 0 && s[s.len() - 1] == 32 {
        let t = &s[0..s.len() - 1];
        assert(t@ =~= s@.drop_last());
        trim(t)
    } else {
        s
    }
}

/// Whether one `NO_PROXY` entry exempts `host`: `*` exempts every host; otherwise the
/// entry, without one leading dot, is the host or a domain the host lies in.
pub open spec fn entry_exempts(entry: Seq<u8>, host: Seq<u8>) -> bool {
    if entry.len() == 0 {
        false
    } else if entry == seq![42u8] {
        true
    } else {
        let d = if entry[0] == 46 { entry.skip(1) } else { entry };
        &&& d.len() > 0
        &&& (host == d || (host.len() > d.len() && host.skip(host.len() - d.len()) == d && host[host.len()
            - d.len() - 1] == 46))
    }
}


fn exempts(entry: &[u8], host: &[u8]) -> (res: bool)
    ensures
        res == entry_exempts(entry@, host@),
{
    if entry.len() == 0 {
        return false;
    }
    if entry.len() == 1 && entry[0] == 42 {
        assert(entry@ =~= seq![42u8]);
        return true;
    }
    assert(entry@ != seq![42u8]);
    let d = if entry[0] == 46 { &entry[1..entry.len()] } else { entry };
    assert(entry@[0] == 46 ==> d@ =~= entry@.skip(1));
    if d.len() == 0 {
        return false;
    }
    if bytes_equal(host, d) {
        return true;
    }
    if host.len() > d.len() {
        let start = host.len() - d.len();
        let tail = &host[start..host.len()];
        assert(tail@ =~= host@.skip(start as int));
        bytes_equal(tail, d) && host[start - 1] == 46
    } else {
        false
    }
}

/// Whether the comma-separated `NO_PROXY` list exempts `host`: some entry, without
/// surrounding spaces, exempts it.
pub open spec fn no_proxy_exempts(list: Seq<u8>, host: Seq<u8>) -> bool
    decreases list.len(),
{
    let c = find_byte(list, 44, 0);
    if entry_exempts(trim_spaces(list.take(c)), host) {
        true
    } else if 0 <= c < list.len() {
        no_proxy_exempts(list.skip(c + 1), host)
    } else {
        false
    }
}

/// One `NO_PROXY` entry: `*` exempts every host; a domain exempts itself and every host
/// inside it (after a dot), written with or without a leading dot; an entry exempts only
/// hosts that end with its domain, and an empty entry exempts nothing.
pub proof fn lemma_no_proxy_entry_meaning(d: Seq<u8>, x: Seq<u8>, host: Seq<u8>)
    requires
        d.len() > 0,
        d[0] != 46,
        d != seq![42u8],
    ensures
        entry_exempts(seq![42u8], host),
        entry_exempts(d, d),
        entry_exempts(seq![46u8] + d, d),
        entry_exempts(d, x + seq![46u8] + d),
        entry_exempts(seq![46u8] + d, x + seq![46u8] + d),
        entry_exempts(d, host) ==> host.len() >= d.len() && host.skip(host.len() - d.len()) == d,
        !entry_exempts(Seq::<u8>::empty(), host),
{
    let e = seq![46u8] + d;
    assert(e.skip(1) =~= d);
    assert(e != seq![42u8]) by {
        if d.len() == 0 {
        } else {
            assert(e.len() >= 2);
        }
    }
    let h = x + seq![46u8] + d;
    assert(h.skip(h.len() - d.len()) =~= d);
    assert(h[h.len() - d.len() - 1] == 46u8);
    if entry_exempts(d, host) && host == d {
        assert(host.skip(0) =~= host);
    }
}

/// Spaces around a `NO_PROXY` entry do not count: an entry with any number of spaces
/// on either side is the entry.
pub proof fn lemma_trim_spaces_removes_padding(e: Seq<u8>, i: nat, j: nat)
    requires
        e.len() > 0,
        e[0] != 32,
        e.last() != 32,
    ensures
        trim_spaces(Seq::new(i, |k: int| 32u8) + e + Seq::new(j, |k: int| 32u8)) == e,
    decreases i, j,
{
    let s = Seq::new(i, |k: int| 32u8) + e + Seq::new(j, |k: int| 32u8);
    if i > 0 {
        assert(s[0] == 32u8);
        assert(s.skip(1) =~= Seq::new((i - 1) as nat, |k: int| 32u8) + e + Seq::new(j, |k: int| 32u8));
        lemma_trim_spaces_removes_padding(e, (i - 1) as nat, j);
    } else if j > 0 {
        assert(s[0] == e[0]);
        assert(s.last() == 32u8);
        assert(s.drop_last() =~= Seq::new(0, |k: int| 32u8) + e + Seq::new((j - 1) as nat, |k: int| 32u8));
        lemma_trim_spaces_removes_padding(e, 0, (j - 1) as nat);
    } else {
        assert(s =~= e);
    }
}

/// A `NO_PROXY` list exempts a host exactly when one of its comma-separated entries,
/// without surrounding spaces, does: a list without a comma is one entry, and a list
/// `a,b` exempts what its first entry `a` exempts and what the rest `b` exempts.
pub proof fn lemma_no_proxy_list_meaning(a: Seq<u8>, b: Seq<u8>, host: Seq<u8>)
    requires
        forall|i: int| 0 <= i < a.len() ==> a[i] != 44,
    ensures
        no_proxy_exempts(a, host) == entry_exempts(trim_spaces(a), host),
        no_proxy_exempts(a + seq![44u8] + b, host) == (entry_exempts(trim_spaces(a), host) || no_proxy_exempts(b, host)),
{
    lemma_no_byte(a, 44);
    assert(a.take(a.len() as int) =~= a);
    let l = a + seq![44u8] + b;
    lemma_find_byte(l, 44, 0);
    let c = find_byte(l, 44, 0);
    if c < a.len() {
        assert(l[c] == a[c]);
    }
    if c > a.len() {
        assert(l[a.len() as int] == 44u8);
    }
    assert(l.take(a.len() as int) =~= a);
    assert(l.skip(a.len() as int + 1) =~= b);
}

/// Whether the `NO_PROXY` list exempts `host`.
pub fn no_proxy_matches(list: &[u8], host: &[u8]) -> (res: bool)
    ensures
        res == no_proxy_exempts(list@, host@),
{
    let mut pos: usize = 0;
    assert(list@.skip(0) =~= list@);
    loop
        invariant
            pos <= list@.len(),
            no_proxy_exempts(list@, host@) == no_proxy_exempts(list@.skip(pos as int), host@),
        decreases list@.len() + 1 - pos,
    {
        proof {
            lemma_find_byte(list@, 44, pos as int);
            lemma_find_byte_skip(list@, 44, pos as int);
        }
        let c = find_byte_from(list, 44, pos);
        let seg = &list[pos..c];
        let ghost rest = list@.skip(pos as int);
        assert(seg@ =~= rest.take(find_byte(rest, 44, 0)));
        let entry = trim(seg);
        if exempts(entry, host) {
            return true;
        }
        if c >= list.len() {
            return false;
        }
        assert(rest.skip(find_byte(rest, 44, 0) + 1) =~= list@.skip(c + 1));
        pos = c + 1;
    }
}

/// A variable that is set and not empty.
pub open spec fn set_value(v: Option<Seq<u8>>) -> Option<Seq<u8>> {
    match v {
        Some(s) => if s.len() > 0 {
            Some(s)
        } else {
            None
        },
        None => None,
    }
}

/// The proxy URL for a target: `HTTPS_PROXY` for a secure (`wss`) target and
/// `HTTP_PROXY` otherwise, else `ALL_PROXY`; an empty variable counts as unset.
pub open spec fn chosen_proxy_url(secure: bool, http_proxy: Option<Seq<u8>>, https_proxy: Option<Seq<u8>>, all_proxy: Option<Seq<u8>>) -> Option<Seq<u8>> {
    let specific = if secure {
        set_value(https_proxy)
    } else {
        set_value(http_proxy)
    };
    if specific is Some {
        specific
    } else {
        set_value(all_proxy)
    }
}

/// The UTF-8 bytes of an optional text.
pub open spec fn opt_text(s: Option<&str>) -> Option<Seq<u8>> {
    match s {
        Some(s) => Some(s.spec_bytes()),
        None => None,
    }
}

/// Which proxy, if any, a connection to `host` goes through: none when `NO_PROXY`
/// exempts the host or no proxy variable applies; otherwise the proxy that the chosen
/// URL names, and an error when that URL cannot be read.
pub open spec fn proxy_choice(
    secure: bool,
    host: Seq<u8>,
    http_proxy: Option<Seq<u8>>,
    https_proxy: Option<Seq<u8>>,
    all_proxy: Option<Seq<u8>>,
    no_proxy: Option<Seq<u8>>,
) -> Result<Option<EndpointView>, ProxyError> {
    if no_proxy matches Some(list) && no_proxy_exempts(list, host) {
        Ok(None)
    } else {
        match chosen_proxy_url(secure, http_proxy, https_proxy, all_proxy) {
            None => Ok(None),
            Some(u) => match parse_proxy_url(u) {
                Some(e) => Ok(Some(e)),
                None => Err(ProxyError::InvalidProxyUrl),
            },
        }
    }
}

/// The view of a proxy choice.
pub open spec fn choice_view(r: Result<Option<ProxyEndpoint>, ProxyError>) -> Result<Option<EndpointView>, ProxyError> {
    match r {
        Ok(Some(e)) => Ok(Some(e@)),
        Ok(None) => Ok(None),
        Err(e) => Err(e),
    }
}

fn nonempty(v: Option<&str>) -> (res: Option<&[u8]>)
    ensures
        match set_value(opt_text(v)) {
            Some(s) => res matches Some(b) && b@ == s,
            None => res is None,
        },
{
    match v {
        Some(s) => {
            let b = s.as_bytes();
            if b.len() > 0 {
                Some(b)
            } else {
                None
            }
        },
        None => None,
    }
}

/// Chooses the proxy for a connection to `host` from the values of `HTTP_PROXY`,
/// `HTTPS_PROXY`, `ALL_PROXY` and `NO_PROXY`; `secure` says whether the target is `wss`.
pub fn proxy_for_target(
    secure: bool,
    host: &str,
    http_proxy: Option<&str>,
    https_proxy: Option<&str>,
    all_proxy: Option<&str>,
    no_proxy: Option<&str>,
) -> (res: Result<Option<ProxyEndpoint>, ProxyError>)
    ensures
        choice_view(res) == proxy_choice(
            secure,
            host.spec_bytes(),
            opt_text(http_proxy),
            opt_text(https_proxy),
            opt_text(all_proxy),
            opt_text(no_proxy),
        ),
{
    if let Some(list) = no_proxy {
        if no_proxy_matches(list.as_bytes(), host.as_bytes()) {
            return Ok(None);
        }
    }
    let specific = if secure {
        nonempty(https_proxy)
    } else {
        nonempty(http_proxy)
    };
    let url = match specific {
        Some(u) => Some(u),
        None => nonempty(all_proxy),
    };
    match url {
        None => Ok(None),
        Some(u) => match read_proxy_url(u) {
            Some(e) => Ok(Some(e)),
            None => Err(ProxyError::InvalidProxyUrl),
        },
    }
}

/// A proxy variable that names a target's kind of connection wins over `ALL_PROXY`, and
/// `NO_PROXY` wins over both.
pub proof fn lemma_proxy_precedence(secure: bool, host: Seq<u8>, http_proxy: Option<Seq<u8>>, https_proxy: Option<Seq<u8>>, all_proxy: Option<Seq<u8>>, no_proxy: Option<Seq<u8>>)
    ensures
        (no_proxy matches Some(list) && no_proxy_exempts(list, host)) ==> proxy_choice(secure, host, http_proxy, https_proxy, all_proxy, no_proxy)
            == Ok::<Option<EndpointView>, ProxyError>(None),
        (!secure && set_value(http_proxy) is Some) ==> chosen_proxy_url(secure, http_proxy, https_proxy, all_proxy) == set_value(http_proxy),
        (secure && set_value(https_proxy) is Some) ==> chosen_proxy_url(secure, http_proxy, https_proxy, all_proxy) == set_value(https_proxy),
        chosen_proxy_url(secure, http_proxy, https_proxy, all_proxy) is None ==> proxy_choice(secure, host, http_proxy, https_proxy, all_proxy, no_proxy)
            == Ok::<Option<EndpointView>, ProxyError>(None),
{
}

/// Which variable a connection uses when `NO_PROXY` does not exempt its host: a secure
/// target uses `HTTPS_PROXY` and never `HTTP_PROXY`, a plain target `HTTP_PROXY` and
/// never `HTTPS_PROXY`; when that one is unset or empty, `ALL_PROXY`; with none of them
/// the connection is direct. The URL taken is read as a proxy URL, and a URL that
/// cannot be read is an error rather than a direct connection.
pub proof fn lemma_proxy_choice_meaning(secure: bool, host: Seq<u8>, url: Seq<u8>, other: Option<Seq<u8>>, no_proxy: Option<Seq<u8>>)
    requires
        url.len() > 0,
        !(no_proxy matches Some(list) && no_proxy_exempts(list, host)),
    ensures
        ({
            let read = match parse_proxy_url(url) {
                Some(e) => Ok::<Option<EndpointView>, ProxyError>(Some(e)),
                None => Err::<Option<EndpointView>, ProxyError>(ProxyError::InvalidProxyUrl),
            };
            &&& proxy_choice(false, host, Some(url), other, other, no_proxy) == read
            &&& proxy_choice(true, host, other, Some(url), other, no_proxy) == read
            &&& proxy_choice(secure, host, None, None, Some(url), no_proxy) == read
            &&& proxy_choice(secure, host, Some(seq![]), Some(seq![]), Some(url), no_proxy) == read
            &&& proxy_choice(true, host, Some(url), None, None, no_proxy) == Ok::<Option<EndpointView>, ProxyError>(None)
            &&& proxy_choice(false, host, None, Some(url), None, no_proxy) == Ok::<Option<EndpointView>, ProxyError>(None)
            &&& proxy_choice(secure, host, None, None, None, no_proxy) == Ok::<Option<EndpointView>, ProxyError>(None)
        }),
{
}

} // verus!
