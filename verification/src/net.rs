//! Textual IP addresses, address pairs, socket addresses and networks, as
//! the WireGuard configuration and the network resources carry them. Each is
//! kept as the text it was read from, which is checked against the grammar of
//! its kind when the value is made. Network texts, and IPv6 addresses as
//! `/128` networks, are read by `ipnet`.
use vstd::prelude::*;
use crate::text::{
    contains_char, find_first_char, find_last_char, first_index_of, last_index_of,
    lemma_first_index_of, lemma_last_index_of, push_char, substring, to_owned_string,
};

verus! {

/// An IP network as `ipnet` reads it: an address and a prefix length.
#[allow(inconsistent_fields)]
#[derive(Clone, Copy, Debug, PartialEq, Eq, Structural)]
pub enum IpNetValue {
    V4 { addr: u32, prefix_len: u8 },
    V6 { addr: u128, prefix_len: u8 },
}

/// What `ipnet`'s `IpNet::from_str` gives for a text (`None` for an error).
pub uninterp spec fn ip_net_parse(text: Seq<char>) -> Option<IpNetValue>;

/// Reads an IP network (`addr/prefix`) with `ipnet`.
#[verifier::external_body]
fn ipnet_from_str(text: &str) -> (r: Option<IpNetValue>)
    ensures
        r == ip_net_parse(text@),
{
    match text.parse::<ipnet::IpNet>() {
        Ok(ipnet::IpNet::V4(n)) => Some(
            IpNetValue::V4 { addr: u32::from(n.addr()), prefix_len: n.prefix_len() },
        ),
        Ok(ipnet::IpNet::V6(n)) => Some(
            IpNetValue::V6 { addr: u128::from(n.addr()), prefix_len: n.prefix_len() },
        ),
        Err(_) => None,
    }
}

/// An octet of a dotted-decimal address: decimal digits of a number up to
/// 255, without a leading zero.
pub open spec fn is_octet_text(p: Seq<char>) -> bool {
    &&& is_bounded_decimal(p, 255)
    &&& p.len() > 1 ==> p[0] != '0'
}

/// `n` octets (at least one) separated by dots.
pub open spec fn is_dotted_octets(t: Seq<char>, n: nat) -> bool
    decreases n,
{
    if n <= 1 {
        is_octet_text(t)
    } else {
        let k = first_index_of(t, '.');
        &&& k >= 0
        &&& is_octet_text(t.subrange(0, k))
        &&& is_dotted_octets(t.subrange(k + 1, t.len() as int), (n - 1) as nat)
    }
}

/// An IPv4 address text: four octets separated by dots.
pub open spec fn is_ipv4_text(t: Seq<char>) -> bool {
    is_dotted_octets(t, 4)
}

/// An IPv6 address text: read by `ipnet` as a `/128` network, with a `:`,
/// without `,` or `]`; an IPv4 address that ends it (after its last `:`)
/// follows the IPv4 grammar.
pub open spec fn is_ipv6_text(t: Seq<char>) -> bool {
    &&& t.contains(':')
    &&& !t.contains(',')
    &&& !t.contains(']')
    &&& ip_net_parse(t + seq!['/', '1', '2', '8']) matches Some(IpNetValue::V6 { prefix_len, .. })
    &&& prefix_len == 128
    &&& t.contains('.') ==> is_ipv4_text(t.subrange(last_index_of(t, ':') + 1, t.len() as int))
}

/// An address pair text: one IPv4 or IPv6 address, or an IPv4 address and an
/// IPv6 address separated by a comma.
pub open spec fn is_ip_pair_text(t: Seq<char>) -> bool {
    let k = first_index_of(t, ',');
    if k < 0 {
        is_ipv4_text(t) || is_ipv6_text(t)
    } else {
        is_ipv4_text(t.subrange(0, k)) && is_ipv6_text(t.subrange(k + 1, t.len() as int))
    }
}

/// Whether `c` is an ASCII decimal digit.
pub open spec fn is_digit(c: char) -> bool {
    '0' <= c && c <= '9'
}

/// The number that a string of decimal digits stands for.
pub open spec fn digits_value(p: Seq<char>) -> nat
    decreases p.len(),
{
    if p.len() == 0 {
        0
    } else {
        digits_value(p.drop_last()) * 10 + ((p.last() as int) - ('0' as int)) as nat
    }
}

/// Decimal digits (at least one) of a number up to `bound`.
pub open spec fn is_bounded_decimal(p: Seq<char>, bound: nat) -> bool {
    &&& p.len() > 0
    &&& forall|i: int| 0 <= i < p.len() ==> is_digit(#[trigger] p[i])
    &&& digits_value(p) <= bound
}

/// A port text: decimal digits of a number up to 65535.
pub open spec fn is_port_text(p: Seq<char>) -> bool {
    is_bounded_decimal(p, 65535)
}

/// The host of a bracketed socket address: an IPv6 address, possibly
/// followed by `%` and a scope id, the decimal digits of a 32-bit number.
pub open spec fn is_ipv6_host_text(h: Seq<char>) -> bool {
    let k = first_index_of(h, '%');
    if k < 0 {
        is_ipv6_text(h)
    } else {
        is_ipv6_text(h.subrange(0, k)) && is_bounded_decimal(
            h.subrange(k + 1, h.len() as int),
            0xffff_ffff,
        )
    }
}

/// A socket address text: `ipv4:port` or `[ipv6]:port`, the IPv6 address
/// possibly with a scope id (`[ipv6%scope]:port`).
pub open spec fn is_socket_addr_text(t: Seq<char>) -> bool {
    if t.len() > 0 && t[0] == '[' {
        let k = first_index_of(t, ']');
        &&& k > 0
        &&& k + 1 < t.len()
        &&& t[k + 1] == ':'
        &&& is_ipv6_host_text(t.subrange(1, k))
        &&& is_port_text(t.subrange(k + 2, t.len() as int))
    } else {
        let k = last_index_of(t, ':');
        &&& k >= 0
        &&& is_ipv4_text(t.subrange(0, k))
        &&& is_port_text(t.subrange(k + 1, t.len() as int))
    }
}

/// An IP network text: read by `ipnet`, without `,`.
pub open spec fn is_ip_net_text(t: Seq<char>) -> bool {
    &&& !t.contains(',')
    &&& ip_net_parse(t) is Some
}

fn check_octet_text(s: &str) -> (b: bool)
    ensures
        b == is_octet_text(s@),
{
    if !check_bounded_decimal(s, 255) {
        return false;
    }
    !(s.unicode_len() > 1 && s.get_char(0) == '0')
}

fn check_dotted_octets(s: &str, n: usize) -> (b: bool)
    ensures
        b == is_dotted_octets(s@, n as nat),
    decreases n,
{
    if n <= 1 {
        return check_octet_text(s);
    }
    match find_first_char(s, '.') {
        None => false,
        Some(k) => {
            let len = s.unicode_len();
            let head = substring(s, 0, k);
            let tail = substring(s, k + 1, len);
            check_octet_text(head.as_str()) && check_dotted_octets(tail.as_str(), n - 1)
        },
    }
}

fn check_ipv4_text(s: &str) -> (b: bool)
    ensures
        b == is_ipv4_text(s@),
{
    check_dotted_octets(s, 4)
}

fn check_ipv6_text(s: &str) -> (b: bool)
    ensures
        b == is_ipv6_text(s@),
{
    if !contains_char(s, ':') || contains_char(s, ',') || contains_char(s, ']') {
        return false;
    }
    let mut t = to_owned_string(s);
    push_char(&mut t, '/');
    push_char(&mut t, '1');
    push_char(&mut t, '2');
    push_char(&mut t, '8');
    assert(t@ =~= s@ + seq!['/', '1', '2', '8']);
    let read = match ipnet_from_str(t.as_str()) {
        Some(IpNetValue::V6 { prefix_len, .. }) => prefix_len == 128,
        _ => false,
    };
    if !read {
        return false;
    }
    if !contains_char(s, '.') {
        return true;
    }
    let n = s.unicode_len();
    match find_last_char(s, ':') {
        Some(k) => {
            let tail = substring(s, k + 1, n);
            check_ipv4_text(tail.as_str())
        },
        None => false,
    }
}

/// A single IPv4 or IPv6 address text.
pub open spec fn is_ip_addr_text(t: Seq<char>) -> bool {
    is_ipv4_text(t) || is_ipv6_text(t)
}

/// Whether `s` is a single IPv4 or IPv6 address.
pub fn check_ip_addr_text(s: &str) -> (b: bool)
    ensures
        b == is_ip_addr_text(s@),
{
    check_ipv4_text(s) || check_ipv6_text(s)
}

fn check_ip_pair_text(s: &str) -> (b: bool)
    ensures
        b == is_ip_pair_text(s@),
{
    match find_first_char(s, ',') {
        None => check_ipv4_text(s) || check_ipv6_text(s),
        Some(k) => {
            let n = s.unicode_len();
            let a = substring(s, 0, k);
            let b = substring(s, k + 1, n);
            check_ipv4_text(a.as_str()) && check_ipv6_text(b.as_str())
        },
    }
}

fn check_bounded_decimal(s: &str, bound: u32) -> (b: bool)
    ensures
        b == is_bounded_decimal(s@, bound as nat),
{
    let n = s.unicode_len();
    if n == 0 {
        return false;
    }
    let mut v: u64 = 0;
    let mut i: usize = 0;
    while i < n
        invariant
            n == s@.len(),
            i <= n,
            forall|j: int| 0 <= j < i ==> is_digit(#[trigger] s@[j]),
            v == digits_value(s@.subrange(0, i as int)),
            v <= bound,
        decreases n - i,
    {
        let c = s.get_char(i);
        if !('0' <= c && c <= '9') {
            return false;
        }
        let d = (c as u64) - ('0' as u64);
        assert(s@.subrange(0, i + 1).drop_last() =~= s@.subrange(0, i as int));
        let w = v * 10 + d;
        if w > bound as u64 {
            proof {
                if forall|j: int| 0 <= j < s@.len() ==> is_digit(#[trigger] s@[j]) {
                    lemma_digits_value_prefix_bound(s@, i + 1);
                }
            }
            return false;
        }
        v = w;
        i = i + 1;
    }
    assert(s@.subrange(0, n as int) =~= s@);
    true
}

fn check_port_text(s: &str) -> (b: bool)
    ensures
        b == is_port_text(s@),
{
    check_bounded_decimal(s, 65535)
}

fn check_ipv6_host_text(s: &str) -> (b: bool)
    ensures
        b == is_ipv6_host_text(s@),
{
    match find_first_char(s, '%') {
        None => check_ipv6_text(s),
        Some(k) => {
            let n = s.unicode_len();
            let addr = substring(s, 0, k);
            let scope = substring(s, k + 1, n);
            check_ipv6_text(addr.as_str()) && check_bounded_decimal(scope.as_str(), 0xffff_ffff)
        },
    }
}

/// A prefix of digits never stands for more than the whole.
proof fn lemma_digits_value_prefix_bound(p: Seq<char>, i: int)
    requires
        0 <= i <= p.len(),
        forall|j: int| 0 <= j < p.len() ==> is_digit(#[trigger] p[j]),
    ensures
        digits_value(p.subrange(0, i)) <= digits_value(p),
    decreases p.len() - i,
{
    if i < p.len() {
        lemma_digits_value_prefix_bound(p, i + 1);
        let q = p.subrange(0, i + 1);
        assert(q.drop_last() =~= p.subrange(0, i));
        assert(is_digit(q.last()));
    } else {
        assert(p.subrange(0, i) =~= p);
    }
}

fn check_socket_addr_text(s: &str) -> (b: bool)
    ensures
        b == is_socket_addr_text(s@),
{
    let n = s.unicode_len();
    if n > 0 && s.get_char(0) == '[' {
        match find_first_char(s, ']') {
            None => false,
            Some(k) => {
                if k == 0 || k + 1 >= n {
                    return false;
                }
                if s.get_char(k + 1) != ':' {
                    return false;
                }
                let host = substring(s, 1, k);
                let port = substring(s, k + 2, n);
                check_ipv6_host_text(host.as_str()) && check_port_text(port.as_str())
            },
        }
    } else {
        match find_last_char(s, ':') {
            None => false,
            Some(k) => {
                let host = substring(s, 0, k);
                let port = substring(s, k + 1, n);
                check_ipv4_text(host.as_str()) && check_port_text(port.as_str())
            },
        }
    }
}

/// A text that is not an address pair.
#[derive(Debug, Clone, Copy, PartialEq, Eq)]
pub struct IpPairError;

/// A text that is not a socket address.
#[derive(Debug, Clone, Copy, PartialEq, Eq)]
pub struct AddrParseError;

/// A text that is not an IP network.
#[derive(Debug, Clone, Copy, PartialEq, Eq)]
pub struct IpNetParseError;

/// An IPv4 address, an IPv6 address, or one of each, as text.
pub struct IpAddrPair {
    text: String,
}

impl View for IpAddrPair {
    type V = Seq<char>;

    closed spec fn view(&self) -> Seq<char> {
        self.text@
    }
}

impl IpAddrPair {
    #[verifier::type_invariant]
    closed spec fn inv(&self) -> bool {
        is_ip_pair_text(self.text@)
    }

    /// Reads an address pair.
    pub fn from_str(s: &str) -> (r: Result<IpAddrPair, IpPairError>)
        ensures
            r is Ok <==> is_ip_pair_text(s@),
            r matches Ok(p) ==> p@ == s@,
    {
        if check_ip_pair_text(s) {
            Ok(IpAddrPair { text: to_owned_string(s) })
        } else {
            Err(IpPairError)
        }
    }

    /// The pair's text.
    pub fn to_string(&self) -> (r: String)
        ensures
            r@ == self@,
            is_ip_pair_text(r@),
    {
        proof {
            use_type_invariant(self);
        }
        self.text.clone()
    }

    /// A copy of the pair.
    pub fn duplicate(&self) -> (r: IpAddrPair)
        ensures
            r@ == self@,
    {
        proof {
            use_type_invariant(self);
        }
        IpAddrPair { text: self.text.clone() }
    }
}

/// An IP address and a port, as text.
pub struct SocketAddress {
    text: String,
}

impl View for SocketAddress {
    type V = Seq<char>;

    closed spec fn view(&self) -> Seq<char> {
        self.text@
    }
}

impl SocketAddress {
    #[verifier::type_invariant]
    closed spec fn inv(&self) -> bool {
        is_socket_addr_text(self.text@)
    }

    /// Reads a socket address.
    pub fn from_str(s: &str) -> (r: Result<SocketAddress, AddrParseError>)
        ensures
            r is Ok <==> is_socket_addr_text(s@),
            r matches Ok(p) ==> p@ == s@,
    {
        if check_socket_addr_text(s) {
            Ok(SocketAddress { text: to_owned_string(s) })
        } else {
            Err(AddrParseError)
        }
    }

    /// The address's text.
    pub fn to_string(&self) -> (r: String)
        ensures
            r@ == self@,
            is_socket_addr_text(r@),
    {
        proof {
            use_type_invariant(self);
        }
        self.text.clone()
    }

    /// A copy of the address.
    pub fn duplicate(&self) -> (r: SocketAddress)
        ensures
            r@ == self@,
    {
        proof {
            use_type_invariant(self);
        }
        SocketAddress { text: self.text.clone() }
    }
}

/// An IP network (`addr/prefix`), as text.
pub struct IpNetwork {
    text: String,
}

impl View for IpNetwork {
    type V = Seq<char>;

    closed spec fn view(&self) -> Seq<char> {
        self.text@
    }
}

impl IpNetwork {
    #[verifier::type_invariant]
    closed spec fn inv(&self) -> bool {
        is_ip_net_text(self.text@)
    }

    /// Reads an IP network.
    pub fn from_str(s: &str) -> (r: Result<IpNetwork, IpNetParseError>)
        ensures
            r is Ok <==> is_ip_net_text(s@),
            r matches Ok(p) ==> p@ == s@,
    {
        if !contains_char(s, ',') && ipnet_from_str(s).is_some() {
            Ok(IpNetwork { text: to_owned_string(s) })
        } else {
            Err(IpNetParseError)
        }
    }

    /// The network's text.
    pub fn to_string(&self) -> (r: String)
        ensures
            r@ == self@,
            is_ip_net_text(r@),
    {
        proof {
            use_type_invariant(self);
        }
        self.text.clone()
    }

    /// The network as `ipnet` reads it.
    pub fn value(&self) -> (r: IpNetValue)
        ensures
            ip_net_parse(self@) == Some(r),
    {
        proof {
            use_type_invariant(self);
        }
        ipnet_from_str(self.text.as_str()).unwrap()
    }

    /// A copy of the network.
    pub fn duplicate(&self) -> (r: IpNetwork)
        ensures
            r@ == self@,
    {
        proof {
            use_type_invariant(self);
        }
        IpNetwork { text: self.text.clone() }
    }
}

} // verus!
