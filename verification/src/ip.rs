//! IP addresses and networks, with the dotted-quad text form of IPv4
//! addresses written and read back by verified code.
use vstd::prelude::*;
use crate::text::{
    chars_of, decimal_text, digits_value, is_digit, lemma_canonical_is_decimal_text,
    lemma_decimal_text_canonical, lemma_decimal_text_short, lemma_digits_value_push,
    lemma_short_digits_value, push_decimal, string_of,
};

verus! {

/// An IPv4 address, by its four octets (most significant first).
#[derive(Clone, Copy, Debug, PartialEq, Eq, Hash, Structural)]
pub struct Ipv4(pub u8, pub u8, pub u8, pub u8);

/// An IPv6 address, by its 128 bits (most significant first).
#[derive(Clone, Copy, Debug, PartialEq, Eq, Hash, Structural)]
pub struct Ipv6(pub u128);

/// An IPv4 or IPv6 address.
#[derive(Clone, Copy, Debug, PartialEq, Eq, Hash, Structural)]
pub enum IpAddress {
    V4(Ipv4),
    V6(Ipv6),
}

/// An IP network in CIDR notation: an address and a prefix length.  The
/// address keeps the host bits it was given.
#[derive(Clone, Copy, Debug, PartialEq, Eq, Hash, Structural)]
pub struct IpNet {
    pub addr: IpAddress,
    pub prefix: u8,
}

/// An address with a port, as a socket address; `scope_id` is the IPv6
/// zone index (always 0 for IPv4).
#[derive(Clone, Copy, Debug, PartialEq, Eq, Hash, Structural)]
pub struct SocketAddress {
    pub ip: IpAddress,
    pub port: u16,
    pub scope_id: u32,
}

/// The longest prefix an address family allows: 32 for IPv4, 128 for IPv6.
pub open spec fn max_prefix(addr: IpAddress) -> nat {
    match addr {
        IpAddress::V4(_) => 32,
        IpAddress::V6(_) => 128,
    }
}

impl IpNet {
    /// A network is well formed when its prefix fits its address family.
    pub open spec fn valid(self) -> bool {
        self.prefix <= max_prefix(self.addr)
    }

    /// The network `addr/prefix`, or `None` when the prefix is longer than
    /// the address family allows.
    pub fn new(addr: IpAddress, prefix: u8) -> (r: Option<IpNet>)
        ensures
            r matches Some(n) ==> n.addr == addr && n.prefix == prefix && n.valid(),
            r is None <==> prefix > max_prefix(addr),
    {
        let max: u8 = match addr {
            IpAddress::V4(_) => 32,
            IpAddress::V6(_) => 128,
        };
        if prefix > max {
            None
        } else {
            Some(IpNet { addr, prefix })
        }
    }

    /// The single-host network `addr/32` of an IPv4 address.
    pub fn host_v4(addr: Ipv4) -> (r: IpNet)
        ensures
            r.addr == IpAddress::V4(addr),
            r.prefix == 32,
            r.valid(),
    {
        IpNet { addr: IpAddress::V4(addr), prefix: 32 }
    }
}

/// Whether every network of `nets` is well formed.
pub open spec fn all_valid(nets: Seq<IpNet>) -> bool {
    forall|i: int| 0 <= i < nets.len() ==> (#[trigger] nets[i]).valid()
}

/// The dotted-quad text of an IPv4 address, e.g. `10.100.0.1`.
pub open spec fn ipv4_text(x: Ipv4) -> Seq<char> {
    decimal_text(x.0 as nat) + seq!['.'] + decimal_text(x.1 as nat) + seq!['.']
        + decimal_text(x.2 as nat) + seq!['.'] + decimal_text(x.3 as nat)
}

/// The IPv4 address whose dotted-quad text is `s`, if there is one.
pub open spec fn ipv4_from_text(s: Seq<char>) -> Option<Ipv4> {
    if exists|x: Ipv4| ipv4_text(x) == s {
        Some(choose|x: Ipv4| ipv4_text(x) == s)
    } else {
        None
    }
}

/// The number of consecutive digits of `s` from position `i`.
spec fn digit_run(s: Seq<char>, i: int) -> nat
    decreases s.len() - i,
{
    if 0 <= i < s.len() && is_digit(s[i]) {
        1 + digit_run(s, i + 1)
    } else {
        0
    }
}

/// The octet written at position `i` of `s` (one to three digits, no
/// leading zero, at most 255) and the position just after it.
spec fn octet_at(s: Seq<char>, i: int) -> Option<(u8, int)> {
    let n = digit_run(s, i) as int;
    let t = s.subrange(i, i + n);
    if 1 <= n <= 3 && (n == 1 || s[i] != '0') && digits_value(t) <= 255 {
        Some((digits_value(t) as u8, i + n))
    } else {
        None
    }
}

/// An octet at position `i` followed by a dot; gives the position after the dot.
spec fn octet_dot_at(s: Seq<char>, i: int) -> Option<(u8, int)> {
    match octet_at(s, i) {
        Some((v, j)) => if j < s.len() && s[j] == '.' {
            Some((v, j + 1))
        } else {
            None
        },
        None => None,
    }
}

/// Reading four dot-separated octets that make up all of `s`.
spec fn read_ipv4(s: Seq<char>) -> Option<Ipv4> {
    match octet_dot_at(s, 0) {
        Some((a, i1)) => match octet_dot_at(s, i1) {
            Some((b, i2)) => match octet_dot_at(s, i2) {
                Some((c, i3)) => match octet_at(s, i3) {
                    Some((d, i4)) => if i4 == s.len() {
                        Some(Ipv4(a, b, c, d))
                    } else {
                        None
                    },
                    None => None,
                },
                None => None,
            },
            None => None,
        },
        None => None,
    }
}

proof fn lemma_digit_run_bounds(s: Seq<char>, i: int)
    requires
        0 <= i <= s.len(),
    ensures
        i + digit_run(s, i) <= s.len(),
        forall|k: int| i <= k < i + digit_run(s, i) ==> is_digit(#[trigger] s[k]),
        i + digit_run(s, i) < s.len() ==> !is_digit(s[i + digit_run(s, i)]),
    decreases s.len() - i,
{
    if i < s.len() && is_digit(s[i]) {
        lemma_digit_run_bounds(s, i + 1);
    }
}

proof fn lemma_digit_run_exact(s: Seq<char>, i: int, j: int)
    requires
        0 <= i <= j <= s.len(),
        forall|k: int| i <= k < j ==> is_digit(#[trigger] s[k]),
        j < s.len() ==> !is_digit(s[j]),
    ensures
        digit_run(s, i) == j - i,
    decreases j - i,
{
    if i < j {
        lemma_digit_run_exact(s, i + 1, j);
    }
}

/// What an octet read at `i` says about `s`.
proof fn lemma_octet_at_sound(s: Seq<char>, i: int)
    requires
        0 <= i <= s.len(),
        octet_at(s, i) is Some,
    ensures
        ({
            let (v, j) = octet_at(s, i)->0;
            &&& i < j <= s.len()
            &&& s.subrange(i, j) == decimal_text(v as nat)
            &&& (j < s.len() ==> !is_digit(s[j]))
        }),
{
    lemma_digit_run_bounds(s, i);
    let n = digit_run(s, i) as int;
    let t = s.subrange(i, i + n);
    assert forall|k: int| 0 <= k < t.len() implies is_digit(#[trigger] t[k]) by {
        assert(t[k] == s[i + k]);
    }
    assert(t[0] == s[i]);
    lemma_canonical_is_decimal_text(t);
}

/// The octet `v` written at `i` and followed by the end or a dot is read back.
proof fn lemma_octet_at_complete(s: Seq<char>, i: int, v: u8)
    requires
        0 <= i,
        i + decimal_text(v as nat).len() <= s.len(),
        s.subrange(i, i + decimal_text(v as nat).len()) == decimal_text(v as nat),
        i + decimal_text(v as nat).len() < s.len() ==> s[i + decimal_text(v as nat).len()] == '.',
    ensures
        octet_at(s, i) == Some((v, i + decimal_text(v as nat).len())),
{
    let t = decimal_text(v as nat);
    let j = i + t.len();
    lemma_decimal_text_canonical(v as nat);
    lemma_decimal_text_short(v as nat);
    assert forall|k: int| i <= k < j implies is_digit(#[trigger] s[k]) by {
        assert(s[k] == t[k - i]);
    }
    lemma_digit_run_exact(s, i, j);
    assert(s[i] == t[0]);
}

/// Reading succeeds exactly on the text of the address it gives.
proof fn lemma_read_ipv4_sound(s: Seq<char>)
    requires
        read_ipv4(s) is Some,
    ensures
        ipv4_text(read_ipv4(s)->0) == s,
{
    let (a, i1) = octet_dot_at(s, 0)->0;
    lemma_octet_at_sound(s, 0);
    let (b, i2) = octet_dot_at(s, i1)->0;
    lemma_octet_at_sound(s, i1);
    let (c, i3) = octet_dot_at(s, i2)->0;
    lemma_octet_at_sound(s, i2);
    let (d, i4) = octet_at(s, i3)->0;
    lemma_octet_at_sound(s, i3);
    let x = Ipv4(a, b, c, d);
    assert(s.subrange(0, i1 - 1) == decimal_text(a as nat));
    assert(s.subrange(i1, i2 - 1) == decimal_text(b as nat));
    assert(s.subrange(i2, i3 - 1) == decimal_text(c as nat));
    assert(s.subrange(i3, i4) == decimal_text(d as nat));
    assert(s =~= s.subrange(0, i1 - 1) + seq!['.'] + s.subrange(i1, i2 - 1) + seq!['.']
        + s.subrange(i2, i3 - 1) + seq!['.'] + s.subrange(i3, i4));
}

/// The text of an address reads back as that address.
proof fn lemma_read_ipv4_complete(x: Ipv4)
    ensures
        read_ipv4(ipv4_text(x)) == Some(x),
{
    let s = ipv4_text(x);
    let t0 = decimal_text(x.0 as nat);
    let t1 = decimal_text(x.1 as nat);
    let t2 = decimal_text(x.2 as nat);
    let t3 = decimal_text(x.3 as nat);
    let i1: int = t0.len() as int + 1;
    let i2: int = i1 + t1.len() + 1;
    let i3: int = i2 + t2.len() + 1;
    assert(s.len() == i3 + t3.len());
    assert(s.subrange(0, t0.len() as int) =~= t0);
    assert(s[t0.len() as int] == '.');
    lemma_octet_at_complete(s, 0, x.0);
    assert(s.subrange(i1, i1 + t1.len()) =~= t1);
    assert(s[i1 + t1.len()] == '.');
    lemma_octet_at_complete(s, i1, x.1);
    assert(s.subrange(i2, i2 + t2.len()) =~= t2);
    assert(s[i2 + t2.len()] == '.');
    lemma_octet_at_complete(s, i2, x.2);
    assert(s.subrange(i3, i3 + t3.len()) =~= t3);
    lemma_octet_at_complete(s, i3, x.3);
}

/// Different addresses have different texts.
pub proof fn lemma_ipv4_text_injective(x: Ipv4, y: Ipv4)
    requires
        ipv4_text(x) == ipv4_text(y),
    ensures
        x == y,
{
    lemma_read_ipv4_complete(x);
    lemma_read_ipv4_complete(y);
}

/// `read_ipv4` is the reading of dotted-quad text.
proof fn lemma_read_ipv4_is_from_text(s: Seq<char>)
    ensures
        read_ipv4(s) == ipv4_from_text(s),
{
    if read_ipv4(s) is Some {
        lemma_read_ipv4_sound(s);
        let x = read_ipv4(s)->0;
        let y = choose|y: Ipv4| ipv4_text(y) == s;
        lemma_ipv4_text_injective(x, y);
    } else if exists|x: Ipv4| ipv4_text(x) == s {
        let x = choose|x: Ipv4| ipv4_text(x) == s;
        lemma_read_ipv4_complete(x);
    }
}

/// Law: the text of an IPv4 address reads back as that same address.
pub proof fn law_ipv4_text_round_trip(x: Ipv4)
    ensures
        ipv4_from_text(ipv4_text(x)) == Some(x),
{
    lemma_read_ipv4_complete(x);
    lemma_read_ipv4_is_from_text(ipv4_text(x));
}

/// Reads the octet at position `i` of `cs`.
fn read_octet(cs: &[char], i: usize) -> (r: Option<(u8, usize)>)
    requires
        i <= cs@.len(),
    ensures
        match octet_at(cs@, i as int) {
            Some((v, j)) => r == Some((v, j as usize)),
            None => r is None,
        },
{
    let n = cs.len();
    let mut j = i;
    let mut value: u32 = 0;
    while j < n && j - i < 4 && '0' <= cs[j] && cs[j] <= '9'
        invariant
            i <= j <= n,
            n == cs@.len(),
            j - i <= 4,
            forall|k: int| i <= k < j ==> is_digit(#[trigger] cs@[k]),
            value as nat == digits_value(cs@.subrange(i as int, j as int)),
            value <= 9999,
        decreases n - j,
    {
        let d = cs[j] as u32 - 48;
        proof {
            lemma_digits_value_push(cs@.subrange(i as int, j as int), cs@[j as int]);
            assert(cs@.subrange(i as int, j + 1) =~= cs@.subrange(i as int, j as int).push(
                cs@[j as int],
            ));
            let t = cs@.subrange(i as int, j as int);
            assert forall|k: int| 0 <= k < t.len() implies is_digit(#[trigger] t[k]) by {
                assert(t[k] == cs@[i + k]);
            }
            lemma_short_digits_value(t);
        }
        value = value * 10 + d;
        j = j + 1;
    }
    proof {
        lemma_digit_run_bounds(cs@, i as int);
        if j - i < 4 {
            lemma_digit_run_exact(cs@, i as int, j as int);
        } else {
            if digit_run(cs@, i as int) < 4 {
                let e = i + digit_run(cs@, i as int);
                assert(is_digit(cs@[e]));
            }
        }
    }
    if j - i == 0 || j - i > 3 {
        return None;
    }
    if j - i > 1 && cs[i] == '0' {
        return None;
    }
    if value > 255 {
        return None;
    }
    Some((value as u8, j))
}

/// Reads an octet at `i` followed by a dot.
fn read_octet_dot(cs: &[char], i: usize) -> (r: Option<(u8, usize)>)
    requires
        i <= cs@.len(),
    ensures
        match octet_dot_at(cs@, i as int) {
            Some((v, j)) => r == Some((v, j as usize)),
            None => r is None,
        },
{
    proof {
        lemma_digit_run_bounds(cs@, i as int);
    }
    match read_octet(cs, i) {
        Some((v, j)) => {
            if j < cs.len() && cs[j] == '.' {
                Some((v, j + 1))
            } else {
                None
            }
        },
        None => None,
    }
}

/// Reads dotted-quad text given as characters.
fn read_ipv4_chars(cs: &[char]) -> (r: Option<Ipv4>)
    ensures
        r == read_ipv4(cs@),
{
    let (a, i1) = match read_octet_dot(cs, 0) {
        Some(p) => p,
        None => return None,
    };
    let (b, i2) = match read_octet_dot(cs, i1) {
        Some(p) => p,
        None => return None,
    };
    let (c, i3) = match read_octet_dot(cs, i2) {
        Some(p) => p,
        None => return None,
    };
    let (d, i4) = match read_octet(cs, i3) {
        Some(p) => p,
        None => return None,
    };
    if i4 == cs.len() {
        Some(Ipv4(a, b, c, d))
    } else {
        None
    }
}

/// Parses dotted-quad text: four decimal octets of one to three digits
/// each, at most 255 and without leading zeros, separated by dots.
pub fn parse_ipv4(s: &str) -> (r: Option<Ipv4>)
    ensures
        r == ipv4_from_text(s@),
        r matches Some(x) ==> ipv4_text(x) == s@,
        r is None ==> forall|x: Ipv4| ipv4_text(x) != s@,
{
    let cs = chars_of(s);
    let r = read_ipv4_chars(cs.as_slice());
    proof {
        lemma_read_ipv4_is_from_text(s@);
        if r is Some {
            lemma_read_ipv4_sound(s@);
        } else {
            assert forall|x: Ipv4| ipv4_text(x) != s@ by {
                if ipv4_text(x) == s@ {
                    lemma_read_ipv4_complete(x);
                }
            }
        }
    }
    r
}

/// Appends the dotted-quad text of `x` to `out`.
pub fn push_ipv4(out: &mut Vec<char>, x: Ipv4)
    ensures
        final(out)@ == old(out)@ + ipv4_text(x),
{
    push_decimal(out, x.0 as u64);
    out.push('.');
    push_decimal(out, x.1 as u64);
    out.push('.');
    push_decimal(out, x.2 as u64);
    out.push('.');
    push_decimal(out, x.3 as u64);
    assert(final(out)@ =~= old(out)@ + ipv4_text(x));
}

/// The dotted-quad text of `x`.
pub fn ipv4_string(x: Ipv4) -> (r: String)
    ensures
        r@ == ipv4_text(x),
{
    let mut cs: Vec<char> = Vec::new();
    push_ipv4(&mut cs, x);
    assert(cs@ =~= ipv4_text(x));
    string_of(cs.as_slice())
}

/// Name for the text that std's `Display` gives an `Ipv6Addr` (the
/// RFC 5952 form, e.g. `2001:db8::1`).
pub uninterp spec fn ipv6_text(x: Ipv6) -> Seq<char>;

/// Name for what std's `Ipv6Addr::from_str` reads from a text.
pub uninterp spec fn ipv6_from_text(s: Seq<char>) -> Option<Ipv6>;

/// Name for what std's `SocketAddr::from_str` reads from a text: an IPv4
/// address and port (`a.b.c.d:p`) or a bracketed IPv6 address with an
/// optional zone and a port (`[x::y%z]:p`).
pub uninterp spec fn socket_address_from_text(s: Seq<char>) -> Option<SocketAddress>;

/// Calls std's `Display` of `Ipv6Addr`; the text is `ipv6_text(x)`.
#[verifier::external_body]
fn ipv6_string(x: Ipv6) -> (r: String)
    ensures
        r@ == ipv6_text(x),
{
    core::net::Ipv6Addr::from(x.0).to_string()
}

/// Calls std's `Ipv6Addr::from_str`; the result is `ipv6_from_text(s)`.
#[verifier::external_body]
fn parse_ipv6(s: &str) -> (r: Option<Ipv6>)
    ensures
        r == ipv6_from_text(s@),
{
    s.parse::<core::net::Ipv6Addr>().ok().map(|a| Ipv6(u128::from(a)))
}

/// Calls std's `SocketAddr::from_str`; the result is
/// `socket_address_from_text(s)` (the IPv6 flow label, always 0 when
/// parsed, is not kept).
#[verifier::external_body]
pub(crate) fn parse_socket_address(s: &str) -> (r: Option<SocketAddress>)
    ensures
        r == socket_address_from_text(s@),
{
    match s.parse::<core::net::SocketAddr>() {
        Ok(core::net::SocketAddr::V4(a)) => {
            let o = a.ip().octets();
            Some(SocketAddress { ip: IpAddress::V4(Ipv4(o[0], o[1], o[2], o[3])), port: a.port(), scope_id: 0 })
        },
        Ok(core::net::SocketAddr::V6(a)) => {
            Some(SocketAddress { ip: IpAddress::V6(Ipv6(u128::from(*a.ip()))), port: a.port(), scope_id: a.scope_id() })
        },
        Err(_) => None,
    }
}

/// The text of an address: dotted quad for IPv4, std's form for IPv6.
pub open spec fn ip_text(a: IpAddress) -> Seq<char> {
    match a {
        IpAddress::V4(x) => ipv4_text(x),
        IpAddress::V6(x) => ipv6_text(x),
    }
}

/// The address read from a text: IPv4 dotted quad first, else IPv6.
pub open spec fn ip_from_text(s: Seq<char>) -> Option<IpAddress> {
    match ipv4_from_text(s) {
        Some(x) => Some(IpAddress::V4(x)),
        None => match ipv6_from_text(s) {
            Some(y) => Some(IpAddress::V6(y)),
            None => None,
        },
    }
}

/// The text of an address.
pub fn ip_string(a: IpAddress) -> (r: String)
    ensures
        r@ == ip_text(a),
{
    match a {
        IpAddress::V4(x) => ipv4_string(x),
        IpAddress::V6(y) => ipv6_string(y),
    }
}

/// Parses an IPv4 or IPv6 address, as std's `IpAddr::from_str`.
pub fn parse_ip_address(s: &str) -> (r: Option<IpAddress>)
    ensures
        r == ip_from_text(s@),
{
    match parse_ipv4(s) {
        Some(x) => Some(IpAddress::V4(x)),
        None => match parse_ipv6(s) {
            Some(y) => Some(IpAddress::V6(y)),
            None => None,
        },
    }
}

} // verus!
