//! The WireGuard configuration file of a peer: how it is written, and how it
//! is read back from the INI sections of a file.
use vstd::prelude::*;
use crate::net::{
    is_ip_net_text, is_ip_pair_text, is_socket_addr_text, IpAddrPair, IpNetwork, SocketAddress,
};
use crate::text::{find_last_char, last_index_of, lemma_last_index_of, push_str, substring};
use super::ini_file::{
    ini_load_from_str, ini_parse, ini_section, properties_get, property_lookup, section_lookup,
    IniSections,
};
use super::keys::{is_wg_key_text, WgKey};
use super::WireguardError;
use crate::crd::{Network, NetworkState, Tunnel, TunnelState};

verus! {

/// A section of the peer configuration file.
#[derive(Clone, Copy, Debug, PartialEq, Eq, Structural)]
pub enum PeerConfigSection {
    Interface,
    Peer,
}

/// A value of the peer configuration file.
#[derive(Clone, Copy, Debug, PartialEq, Eq, Structural)]
pub enum PeerConfigField {
    InterfaceAddress,
    InterfacePrivateKey,
    InterfaceDns,
    PeerPublicKey,
    PeerPresharedKey,
    PeerEndpoint,
    PeerAllowedIps,
}

/// The name of a section in the file.
pub open spec fn section_name(s: PeerConfigSection) -> Seq<char> {
    match s {
        PeerConfigSection::Interface => "Interface"@,
        PeerConfigSection::Peer => "Peer"@,
    }
}

/// The place of a value in the file, as `Section:Key`.
pub open spec fn field_label(f: PeerConfigField) -> Seq<char> {
    match f {
        PeerConfigField::InterfaceAddress => "Interface:Address"@,
        PeerConfigField::InterfacePrivateKey => "Interface:PrivateKey"@,
        PeerConfigField::InterfaceDns => "Interface:DNS"@,
        PeerConfigField::PeerPublicKey => "Peer:PublicKey"@,
        PeerConfigField::PeerPresharedKey => "Peer:PresharedKey"@,
        PeerConfigField::PeerEndpoint => "Peer:Endpoint"@,
        PeerConfigField::PeerAllowedIps => "Peer:AllowedIPs"@,
    }
}

impl PeerConfigSection {
    /// The section's name in the file.
    pub fn name(&self) -> (r: &'static str)
        ensures
            r@ == section_name(*self),
    {
        match self {
            PeerConfigSection::Interface => "Interface",
            PeerConfigSection::Peer => "Peer",
        }
    }
}

impl PeerConfigField {
    /// The value's place in the file, as `Section:Key`.
    pub fn label(&self) -> (r: &'static str)
        ensures
            r@ == field_label(*self),
    {
        match self {
            PeerConfigField::InterfaceAddress => "Interface:Address",
            PeerConfigField::InterfacePrivateKey => "Interface:PrivateKey",
            PeerConfigField::InterfaceDns => "Interface:DNS",
            PeerConfigField::PeerPublicKey => "Peer:PublicKey",
            PeerConfigField::PeerPresharedKey => "Peer:PresharedKey",
            PeerConfigField::PeerEndpoint => "Peer:Endpoint",
            PeerConfigField::PeerAllowedIps => "Peer:AllowedIPs",
        }
    }
}

/// Why a peer configuration file could not be read.
#[derive(Debug)]
pub enum WireguardParseError {
    /// The text is not an INI document.
    IniError(ini::ParseError),
    MissingSection(PeerConfigSection),
    MissingValue(PeerConfigField),
    IpPairParseError(PeerConfigField),
    WgKeyParseError(PeerConfigField),
    SocketAddrParseError(PeerConfigField),
    IpNetParseError(PeerConfigField),
}

/// The values of a peer configuration, as text.
pub struct PeerConfigView {
    pub address: Seq<char>,
    pub dns: Option<Seq<char>>,
    pub peer_private_key: Seq<char>,
    pub server_public_key: Seq<char>,
    pub preshared_key: Seq<char>,
    pub server_endpoint: Seq<char>,
    pub allowed_ips: Seq<Seq<char>>,
}

/// Every value is of its kind.
pub open spec fn peer_config_valid(c: PeerConfigView) -> bool {
    &&& is_ip_pair_text(c.address)
    &&& (c.dns matches Some(d) ==> is_ip_pair_text(d))
    &&& is_wg_key_text(c.peer_private_key)
    &&& is_wg_key_text(c.server_public_key)
    &&& is_wg_key_text(c.preshared_key)
    &&& is_socket_addr_text(c.server_endpoint)
    &&& forall|i: int| 0 <= i < c.allowed_ips.len() ==> is_ip_net_text(#[trigger] c.allowed_ips[i])
}

/// The items joined by commas.
pub open spec fn join_commas(items: Seq<Seq<char>>) -> Seq<char>
    decreases items.len(),
{
    if items.len() == 0 {
        Seq::empty()
    } else if items.len() == 1 {
        items[0]
    } else {
        join_commas(items.drop_last()) + seq![','] + items.last()
    }
}

/// The pieces of `t` between commas (at least one, possibly empty).
pub open spec fn split_commas(t: Seq<char>) -> Seq<Seq<char>>
    decreases t.len(),
{
    let k = last_index_of(t, ',');
    if k < 0 {
        seq![t]
    } else {
        proof {
            lemma_last_index_of(t, ',');
        }
        split_commas(t.subrange(0, k)).push(t.subrange(k + 1, t.len() as int))
    }
}

/// The `DNS` line of the file: empty without a DNS server.
pub open spec fn dns_line(dns: Option<Seq<char>>) -> Seq<char> {
    match dns {
        Some(d) => "DNS = "@ + d,
        None => Seq::empty(),
    }
}

/// The text of the configuration file of `c`.
pub open spec fn render_peer_config(c: PeerConfigView) -> Seq<char> {
    "[Interface]\nAddress = "@ + c.address + "\nPrivateKey = "@ + c.peer_private_key + "\n"@
        + dns_line(c.dns) + "\n\n[Peer]\nPublicKey = "@ + c.server_public_key
        + "\nPresharedKey = "@ + c.preshared_key + "\nEndpoint = "@ + c.server_endpoint
        + "\nAllowedIPs = "@ + join_commas(c.allowed_ips)
}

/// The `DNS` entry of the interface section: none without a DNS server.
pub open spec fn dns_entries(dns: Option<Seq<char>>) -> Seq<(Seq<char>, Seq<char>)> {
    match dns {
        Some(d) => seq![("DNS"@, d)],
        None => Seq::empty(),
    }
}

/// The INI sections that the configuration file of `c` consists of: the
/// (empty) general section, `[Interface]` and `[Peer]`.
pub open spec fn peer_config_sections(c: PeerConfigView) -> IniSections {
    seq![
        (None, Seq::empty()),
        (
            Some("Interface"@),
            seq![("Address"@, c.address), ("PrivateKey"@, c.peer_private_key)] + dns_entries(c.dns),
        ),
        (
            Some("Peer"@),
            seq![
                ("PublicKey"@, c.server_public_key),
                ("PresharedKey"@, c.preshared_key),
                ("Endpoint"@, c.server_endpoint),
                ("AllowedIPs"@, join_commas(c.allowed_ips)),
            ],
        ),
    ]
}

/// The allowed IPs of an `AllowedIPs` value: its comma-separated pieces, each a network.
pub open spec fn decode_allowed_ips(v: Seq<char>) -> Result<Seq<Seq<char>>, WireguardParseError> {
    let pieces = split_commas(v);
    if forall|i: int| 0 <= i < pieces.len() ==> is_ip_net_text(#[trigger] pieces[i]) {
        Ok(pieces)
    } else {
        Err(WireguardParseError::IpNetParseError(PeerConfigField::PeerAllowedIps))
    }
}

/// The values of the `[Interface]` section: address, private key, DNS server.
pub open spec fn decode_interface(iface: Seq<(Seq<char>, Seq<char>)>) -> Result<
    (Seq<char>, Seq<char>, Option<Seq<char>>),
    WireguardParseError,
> {
    match property_lookup(iface, "Address"@) {
        None => Err(WireguardParseError::MissingValue(PeerConfigField::InterfaceAddress)),
        Some(address) => if !is_ip_pair_text(address) {
            Err(WireguardParseError::IpPairParseError(PeerConfigField::InterfaceAddress))
        } else {
            match property_lookup(iface, "PrivateKey"@) {
                None => Err(WireguardParseError::MissingValue(PeerConfigField::InterfacePrivateKey)),
                Some(key) => if !is_wg_key_text(key) {
                    Err(WireguardParseError::WgKeyParseError(PeerConfigField::InterfacePrivateKey))
                } else {
                    match property_lookup(iface, "DNS"@) {
                        Some(dns) => if !is_ip_pair_text(dns) {
                            Err(WireguardParseError::IpPairParseError(PeerConfigField::InterfaceDns))
                        } else {
                            Ok((address, key, Some(dns)))
                        },
                        None => Ok((address, key, None)),
                    }
                },
            }
        },
    }
}

/// The values of the `[Peer]` section: public key, preshared key, endpoint, allowed IPs.
pub open spec fn decode_peer(peer: Seq<(Seq<char>, Seq<char>)>) -> Result<
    (Seq<char>, Seq<char>, Seq<char>, Seq<Seq<char>>),
    WireguardParseError,
> {
    match property_lookup(peer, "PublicKey"@) {
        None => Err(WireguardParseError::MissingValue(PeerConfigField::PeerPublicKey)),
        Some(public_key) => if !is_wg_key_text(public_key) {
            Err(WireguardParseError::WgKeyParseError(PeerConfigField::PeerPublicKey))
        } else {
            match property_lookup(peer, "PresharedKey"@) {
                None => Err(WireguardParseError::MissingValue(PeerConfigField::PeerPresharedKey)),
                Some(psk) => if !is_wg_key_text(psk) {
                    Err(WireguardParseError::WgKeyParseError(PeerConfigField::PeerPresharedKey))
                } else {
                    match property_lookup(peer, "Endpoint"@) {
                        None => Err(WireguardParseError::MissingValue(PeerConfigField::PeerEndpoint)),
                        Some(endpoint) => if !is_socket_addr_text(endpoint) {
                            Err(
                                WireguardParseError::SocketAddrParseError(
                                    PeerConfigField::PeerEndpoint,
                                ),
                            )
                        } else {
                            match property_lookup(peer, "AllowedIPs"@) {
                                None => Err(
                                    WireguardParseError::MissingValue(
                                        PeerConfigField::PeerAllowedIps,
                                    ),
                                ),
                                Some(ips) => match decode_allowed_ips(ips) {
                                    Ok(nets) => Ok((public_key, psk, endpoint, nets)),
                                    Err(e) => Err(e),
                                },
                            }
                        },
                    }
                },
            }
        },
    }
}

/// The peer configuration that the INI sections of a file describe.
pub open spec fn decode_peer_config(secs: IniSections) -> Result<PeerConfigView, WireguardParseError> {
    match section_lookup(secs, "Interface"@) {
        None => Err(WireguardParseError::MissingSection(PeerConfigSection::Interface)),
        Some(iface) => match decode_interface(iface) {
            Err(e) => Err(e),
            Ok((address, key, dns)) => match section_lookup(secs, "Peer"@) {
                None => Err(WireguardParseError::MissingSection(PeerConfigSection::Peer)),
                Some(peer) => match decode_peer(peer) {
                    Err(e) => Err(e),
                    Ok((public_key, psk, endpoint, nets)) => Ok(
                        PeerConfigView {
                            address,
                            dns,
                            peer_private_key: key,
                            server_public_key: public_key,
                            preshared_key: psk,
                            server_endpoint: endpoint,
                            allowed_ips: nets,
                        },
                    ),
                },
            },
        },
    }
}

/// The WireGuard configuration of a peer.
pub struct WireguardPeerConfig {
    pub address: IpAddrPair,
    pub dns: Option<IpAddrPair>,
    pub peer_private_key: WgKey,
    pub server_public_key: WgKey,
    pub preshared_key: WgKey,
    pub server_endpoint: SocketAddress,
    pub allowed_ips: Vec<IpNetwork>,
}

/// The texts of a list of networks.
pub open spec fn networks_view(v: Seq<IpNetwork>) -> Seq<Seq<char>> {
    v.map_values(|n: IpNetwork| n@)
}

impl View for WireguardPeerConfig {
    type V = PeerConfigView;

    open spec fn view(&self) -> PeerConfigView {
        PeerConfigView {
            address: self.address@,
            dns: match self.dns {
                Some(d) => Some(d@),
                None => None,
            },
            peer_private_key: self.peer_private_key@,
            server_public_key: self.server_public_key@,
            preshared_key: self.preshared_key@,
            server_endpoint: self.server_endpoint@,
            allowed_ips: networks_view(self.allowed_ips@),
        }
    }
}

/// The view of the result of reading a configuration.
pub open spec fn parse_result_view(r: Result<WireguardPeerConfig, WireguardParseError>) -> Result<
    PeerConfigView,
    WireguardParseError,
> {
    match r {
        Ok(c) => Ok(c@),
        Err(e) => Err(e),
    }
}

/// The text of an optional address pair.
pub open spec fn opt_pair_view(p: Option<IpAddrPair>) -> Option<Seq<char>> {
    match p {
        Some(a) => Some(a@),
        None => None,
    }
}

/// The peer configuration that a network and one of its tunnels make for the
/// holder of `key`, or why they do not make one yet.
pub open spec fn peer_config_from_crd(key: Seq<char>, network: &Network, tunnel: &Tunnel) -> Result<
    PeerConfigView,
    WireguardError,
> {
    match network.status {
        None => Err(WireguardError::NetworkNotReady),
        Some(ns) => if ns.state != NetworkState::Deployed {
            Err(WireguardError::NetworkInvalidState(ns.state))
        } else {
            match tunnel.status {
                None => Err(WireguardError::TunnelNotReady),
                Some(ts) => if !(ts.state == TunnelState::Configured || ts.state
                    == TunnelState::Connected) {
                    Err(WireguardError::TunnelInvalidState(ts.state))
                } else {
                    match ts.address {
                        None => Err(WireguardError::AddressNotAssigned),
                        Some(address) => match ns.server_public_key {
                            None => Err(WireguardError::NetworkInvalidServerPublicKey),
                            Some(spk) => if !is_wg_key_text(spk@) {
                                Err(WireguardError::NetworkInvalidServerPublicKey)
                            } else if !is_wg_key_text(tunnel.spec.preshared_key@) {
                                Err(WireguardError::TunnelInvalidPresharedKey)
                            } else {
                                match ns.endpoints {
                                    None => Err(WireguardError::NetworkMissingEndpoint),
                                    Some(eps) => if eps@.len() == 0 {
                                        Err(WireguardError::NetworkMissingEndpoint)
                                    } else {
                                        match ns.allowed_ips {
                                            None => Err(WireguardError::NetworkMissingAllowedIps),
                                            Some(ips) => Ok(
                                                PeerConfigView {
                                                    address: address@,
                                                    dns: opt_pair_view(ns.dns),
                                                    peer_private_key: key,
                                                    server_public_key: spk@,
                                                    preshared_key: tunnel.spec.preshared_key@,
                                                    server_endpoint: eps@[0]@,
                                                    allowed_ips: networks_view(ips@),
                                                },
                                            ),
                                        }
                                    },
                                }
                            },
                        },
                    }
                },
            }
        },
    }
}

/// A copy of a list of networks.
pub fn duplicate_networks(v: &Vec<IpNetwork>) -> (r: Vec<IpNetwork>)
    ensures
        networks_view(r@) == networks_view(v@),
{
    let mut r: Vec<IpNetwork> = Vec::new();
    let n = v.len();
    let mut i: usize = 0;
    while i < n
        invariant
            n == v@.len(),
            i <= n,
            r@.len() == i,
            forall|j: int| 0 <= j < i ==> (#[trigger] r@[j])@ == v@[j]@,
        decreases n - i,
    {
        r.push(v[i].duplicate());
        i = i + 1;
    }
    assert(networks_view(r@) =~= networks_view(v@));
    r
}

/// The view of the result of building a configuration from resources.
pub open spec fn crd_result_view(r: Result<WireguardPeerConfig, WireguardError>) -> Result<
    PeerConfigView,
    WireguardError,
> {
    match r {
        Ok(c) => Ok(c@),
        Err(e) => Err(e),
    }
}

proof fn lemma_join_commas_push(items: Seq<Seq<char>>, x: Seq<char>)
    ensures
        join_commas(items.push(x)) == if items.len() == 0 {
            x
        } else {
            join_commas(items) + seq![','] + x
        },
{
    assert(items.push(x).drop_last() =~= items);
    if items.len() == 0 {
        assert(items.push(x).len() == 1);
    }
}

/// Reads comma-separated networks.
fn parse_allowed_ips(t: &str) -> (r: Result<Vec<IpNetwork>, WireguardParseError>)
    ensures
        r is Ok <==> forall|i: int|
            0 <= i < split_commas(t@).len() ==> is_ip_net_text(#[trigger] split_commas(t@)[i]),
        r matches Ok(v) ==> networks_view(v@) == split_commas(t@),
        r matches Err(e) ==> e == WireguardParseError::IpNetParseError(
            PeerConfigField::PeerAllowedIps,
        ),
    decreases t@.len(),
{
    proof {
        lemma_last_index_of(t@, ',');
    }
    match find_last_char(t, ',') {
        None => {
            match IpNetwork::from_str(t) {
                Ok(n) => {
                    let mut v = Vec::new();
                    v.push(n);
                    assert(networks_view(v@) =~= seq![t@]);
                    assert(split_commas(t@) == seq![t@]);
                    assert forall|i: int|
                        0 <= i < split_commas(t@).len() implies is_ip_net_text(
                        #[trigger] split_commas(t@)[i],
                    ) by {
                        assert(i == 0);
                    }
                    Ok(v)
                },
                Err(_) => {
                    assert(split_commas(t@)[0] == t@);
                    Err(WireguardParseError::IpNetParseError(PeerConfigField::PeerAllowedIps))
                },
            }
        },
        Some(k) => {
            let n = t.unicode_len();
            let head = substring(t, 0, k);
            let tail = substring(t, k + 1, n);
            let ghost pieces = split_commas(t@);
            assert(pieces == split_commas(head@).push(tail@));
            match parse_allowed_ips(head.as_str()) {
                Err(e) => {
                    let ghost i = choose|i: int|
                        0 <= i < split_commas(head@).len() && !is_ip_net_text(
                            #[trigger] split_commas(head@)[i],
                        );
                    assert(pieces[i] == split_commas(head@)[i]);
                    assert(!is_ip_net_text(pieces[i]));
                    Err(e)
                },
                Ok(mut v) => {
                    match IpNetwork::from_str(tail.as_str()) {
                        Ok(last) => {
                            v.push(last);
                            assert(networks_view(v@) =~= pieces);
                            assert forall|i: int|
                                0 <= i < pieces.len() implies is_ip_net_text(
                                #[trigger] pieces[i],
                            ) by {
                                if i < pieces.len() - 1 {
                                    assert(pieces[i] == split_commas(head@)[i]);
                                }
                            }
                            Ok(v)
                        },
                        Err(_) => {
                            assert(pieces[pieces.len() - 1] == tail@);
                            assert(!is_ip_net_text(pieces[pieces.len() - 1]));
                            Err(
                                WireguardParseError::IpNetParseError(
                                    PeerConfigField::PeerAllowedIps,
                                ),
                            )
                        },
                    }
                },
            }
        },
    }
}

proof fn lemma_last_comma_of_join(a: Seq<char>, b: Seq<char>)
    requires
        !b.contains(','),
    ensures
        last_index_of(a + seq![','] + b, ',') == a.len(),
{
    let t = a + seq![','] + b;
    lemma_last_index_of(t, ',');
    let k = last_index_of(t, ',');
    assert(t[a.len() as int] == ',');
    if k > a.len() {
        assert(t[k] == b[k - a.len() - 1]);
        assert(b.contains(','));
    }
}

/// Splitting a comma-joined list of comma-free items gives the items back.
pub proof fn lemma_split_join_commas(items: Seq<Seq<char>>)
    requires
        items.len() >= 1,
        forall|i: int| 0 <= i < items.len() ==> !(#[trigger] items[i]).contains(','),
    ensures
        split_commas(join_commas(items)) == items,
    decreases items.len(),
{
    if items.len() == 1 {
        lemma_last_index_of(items[0], ',');
        assert(split_commas(items[0]) =~= items);
    } else {
        let a = join_commas(items.drop_last());
        let b = items.last();
        let t = a + seq![','] + b;
        assert(!b.contains(','));
        lemma_last_comma_of_join(a, b);
        assert(t.subrange(0, a.len() as int) =~= a);
        assert(t.subrange(a.len() as int + 1, t.len() as int) =~= b);
        lemma_split_join_commas(items.drop_last());
        assert(split_commas(t) =~= items.drop_last().push(b));
        assert(items.drop_last().push(b) =~= items);
    }
}

/// Reading back the sections of a configuration file gives the configuration
/// that was written, provided it allows at least one network.
pub proof fn lemma_decode_peer_config_sections(c: PeerConfigView)
    requires
        peer_config_valid(c),
        c.allowed_ips.len() >= 1,
    ensures
        decode_peer_config(peer_config_sections(c)) == Ok::<PeerConfigView, WireguardParseError>(c),
{
    reveal_strlit("Interface");
    reveal_strlit("Peer");
    reveal_strlit("Address");
    reveal_strlit("PrivateKey");
    reveal_strlit("DNS");
    reveal_strlit("PublicKey");
    reveal_strlit("PresharedKey");
    reveal_strlit("Endpoint");
    reveal_strlit("AllowedIPs");
    let secs = peer_config_sections(c);
    let iface = seq![("Address"@, c.address), ("PrivateKey"@, c.peer_private_key)] + dns_entries(
        c.dns,
    );
    let peer = seq![
        ("PublicKey"@, c.server_public_key),
        ("PresharedKey"@, c.preshared_key),
        ("Endpoint"@, c.server_endpoint),
        ("AllowedIPs"@, join_commas(c.allowed_ips)),
    ];
    assert("Interface"@.len() == 9);
    assert("Peer"@.len() == 4);
    assert(secs.drop_first()[0] == secs[1]);
    assert(section_lookup(secs.drop_first(), "Interface"@) == Some(iface));
    assert(section_lookup(secs, "Interface"@) == Some(iface));
    assert(secs.drop_first().drop_first()[0] == secs[2]);
    assert(secs[1].0 != Some("Peer"@));
    assert(section_lookup(secs.drop_first().drop_first(), "Peer"@) == Some(peer));
    assert(section_lookup(secs.drop_first(), "Peer"@) == Some(peer));
    assert(section_lookup(secs, "Peer"@) == Some(peer));
    assert("Address"@.len() == 7);
    assert("PrivateKey"@.len() == 10);
    assert("DNS"@.len() == 3);
    assert("PublicKey"@.len() == 9);
    assert("PresharedKey"@.len() == 12);
    assert("Endpoint"@.len() == 8);
    assert("AllowedIPs"@.len() == 10);
    assert("PrivateKey"@[0] != "AllowedIPs"@[0]);
    assert(iface.drop_first()[0] == iface[1]);
    assert(property_lookup(iface, "Address"@) == Some(c.address));
    assert(property_lookup(iface.drop_first(), "PrivateKey"@) == Some(c.peer_private_key));
    assert(property_lookup(iface, "PrivateKey"@) == Some(c.peer_private_key));
    assert(iface.drop_first().drop_first() =~= dns_entries(c.dns));
    match c.dns {
        Some(d) => {
            assert(dns_entries(c.dns)[0] == ("DNS"@, d));
            assert(property_lookup(dns_entries(c.dns), "DNS"@) == Some(d));
            assert(property_lookup(iface.drop_first(), "DNS"@) == Some(d));
            assert(property_lookup(iface, "DNS"@) == Some(d));
        },
        None => {
            assert(property_lookup(dns_entries(c.dns), "DNS"@) == None::<Seq<char>>);
            assert(property_lookup(iface.drop_first(), "DNS"@) == None::<Seq<char>>);
            assert(property_lookup(iface, "DNS"@) == None::<Seq<char>>);
        },
    }
    assert(decode_interface(iface) == Ok::<_, WireguardParseError>(
        (c.address, c.peer_private_key, c.dns),
    ));
    assert(peer.drop_first()[0] == peer[1]);
    assert(peer.drop_first().drop_first()[0] == peer[2]);
    assert(peer.drop_first().drop_first().drop_first()[0] == peer[3]);
    let p1 = peer.drop_first();
    let p2 = p1.drop_first();
    let p3 = p2.drop_first();
    assert(property_lookup(peer, "PublicKey"@) == Some(c.server_public_key));
    assert(property_lookup(p1, "PresharedKey"@) == Some(c.preshared_key));
    assert(property_lookup(peer, "PresharedKey"@) == Some(c.preshared_key));
    assert(property_lookup(p2, "Endpoint"@) == Some(c.server_endpoint));
    assert(property_lookup(p1, "Endpoint"@) == Some(c.server_endpoint));
    assert(property_lookup(peer, "Endpoint"@) == Some(c.server_endpoint));
    assert(property_lookup(p3, "AllowedIPs"@) == Some(join_commas(c.allowed_ips)));
    assert(property_lookup(p2, "AllowedIPs"@) == Some(join_commas(c.allowed_ips)));
    assert(property_lookup(p1, "AllowedIPs"@) == Some(join_commas(c.allowed_ips)));
    assert(property_lookup(peer, "AllowedIPs"@) == Some(join_commas(c.allowed_ips)));
    assert forall|i: int| 0 <= i < c.allowed_ips.len() implies !(
    #[trigger] c.allowed_ips[i]).contains(',') by {
        assert(is_ip_net_text(c.allowed_ips[i]));
    }
    lemma_split_join_commas(c.allowed_ips);
    assert(decode_allowed_ips(join_commas(c.allowed_ips)) == Ok::<_, WireguardParseError>(
        c.allowed_ips,
    ));
}

/// Writing a configuration file and reading it back gives the configuration
/// again, for every configuration that allows a network, wherever the INI
/// reader reads the written text as the sections it was written from.
pub proof fn lemma_written_file_reads_back(c: PeerConfigView)
    requires
        peer_config_valid(c),
        c.allowed_ips.len() >= 1,
        ini_parse(render_peer_config(c)) == Some(peer_config_sections(c)),
    ensures
        ini_parse(render_peer_config(c)) matches Some(secs) && decode_peer_config(secs) == Ok::<
            PeerConfigView,
            WireguardParseError,
        >(c),
{
    lemma_decode_peer_config_sections(c);
}

impl WireguardPeerConfig {
    /// Every value of the configuration is of its kind.
    pub fn lemma_valid(&self)
        ensures
            peer_config_valid(self@),
    {
        self.address.to_string();
        match &self.dns {
            Some(d) => {
                d.to_string();
            },
            None => {},
        }
        self.peer_private_key.lemma_text();
        self.server_public_key.lemma_text();
        self.preshared_key.lemma_text();
        self.server_endpoint.to_string();
        let n = self.allowed_ips.len();
        let mut i: usize = 0;
        while i < n
            invariant
                n == self.allowed_ips@.len(),
                i <= n,
                forall|j: int| 0 <= j < i ==> is_ip_net_text(#[trigger] self.allowed_ips@[j]@),
            decreases n - i,
        {
            self.allowed_ips[i].to_string();
            i = i + 1;
        }
    }

    /// The text of the configuration file.
    pub fn generate_configuration_file(&self) -> (r: String)
        ensures
            r@ == render_peer_config(self@),
    {
        let mut r = String::new();
        push_str(&mut r, "[Interface]\nAddress = ");
        push_str(&mut r, self.address.to_string().as_str());
        push_str(&mut r, "\nPrivateKey = ");
        push_str(&mut r, self.peer_private_key.to_base64().as_str());
        push_str(&mut r, "\n");
        match &self.dns {
            Some(d) => {
                push_str(&mut r, "DNS = ");
                push_str(&mut r, d.to_string().as_str());
            },
            None => {},
        }
        push_str(&mut r, "\n\n[Peer]\nPublicKey = ");
        push_str(&mut r, self.server_public_key.to_base64().as_str());
        push_str(&mut r, "\nPresharedKey = ");
        push_str(&mut r, self.preshared_key.to_base64().as_str());
        push_str(&mut r, "\nEndpoint = ");
        push_str(&mut r, self.server_endpoint.to_string().as_str());
        push_str(&mut r, "\nAllowedIPs = ");
        let ghost prefix = r@;
        let ghost items = networks_view(self.allowed_ips@);
        assert(prefix + join_commas(items) == render_peer_config(self@));
        let n = self.allowed_ips.len();
        let mut i: usize = 0;
        while i < n
            invariant
                n == items.len(),
                items == networks_view(self.allowed_ips@),
                i <= n,
                r@ == prefix + join_commas(items.take(i as int)),
            decreases n - i,
        {
            if i > 0 {
                push_str(&mut r, ",");
            }
            push_str(&mut r, self.allowed_ips[i].to_string().as_str());
            proof {
                assert(items.take(i + 1) =~= items.take(i as int).push(items[i as int]));
                lemma_join_commas_push(items.take(i as int), items[i as int]);
                reveal_strlit(",");
            }
            i = i + 1;
        }
        assert(items.take(n as int) =~= items);
        r
    }

    /// The peer configuration that a deployed network and one of its ready
    /// tunnels make for the holder of `peer_private_key`.
    pub fn from_crd(peer_private_key: WgKey, network: &Network, tunnel: &Tunnel) -> (r: Result<
        WireguardPeerConfig,
        WireguardError,
    >)
        ensures
            crd_result_view(r) == peer_config_from_crd(peer_private_key@, network, tunnel),
    {
        let network_status = match &network.status {
            Some(s) => s,
            None => {
                return Err(WireguardError::NetworkNotReady);
            },
        };
        if network_status.state != NetworkState::Deployed {
            return Err(WireguardError::NetworkInvalidState(network_status.state));
        }
        let tunnel_status = match &tunnel.status {
            Some(s) => s,
            None => {
                return Err(WireguardError::TunnelNotReady);
            },
        };
        if tunnel_status.state != TunnelState::Configured && tunnel_status.state
            != TunnelState::Connected {
            return Err(WireguardError::TunnelInvalidState(tunnel_status.state));
        }
        let address = match &tunnel_status.address {
            Some(a) => a.duplicate(),
            None => {
                return Err(WireguardError::AddressNotAssigned);
            },
        };
        let dns = match &network_status.dns {
            Some(d) => Some(d.duplicate()),
            None => None,
        };
        let server_public_key = match &network_status.server_public_key {
            Some(k) => match WgKey::from_base64(k.as_str()) {
                Ok(key) => key,
                Err(_) => {
                    return Err(WireguardError::NetworkInvalidServerPublicKey);
                },
            },
            None => {
                return Err(WireguardError::NetworkInvalidServerPublicKey);
            },
        };
        let preshared_key = match WgKey::from_base64(tunnel.spec.preshared_key.as_str()) {
            Ok(k) => k,
            Err(_) => {
                return Err(WireguardError::TunnelInvalidPresharedKey);
            },
        };
        let server_endpoint = match &network_status.endpoints {
            Some(e) => {
                if e.len() == 0 {
                    return Err(WireguardError::NetworkMissingEndpoint);
                }
                e[0].duplicate()
            },
            None => {
                return Err(WireguardError::NetworkMissingEndpoint);
            },
        };
        let allowed_ips = match &network_status.allowed_ips {
            Some(v) => duplicate_networks(v),
            None => {
                return Err(WireguardError::NetworkMissingAllowedIps);
            },
        };
        Ok(
            WireguardPeerConfig {
                address,
                dns,
                peer_private_key,
                server_public_key,
                preshared_key,
                server_endpoint,
                allowed_ips,
            },
        )
    }

    /// Reads a peer configuration from the text of its file.
    pub fn from_ini_text(text: &str) -> (r: Result<WireguardPeerConfig, WireguardParseError>)
        ensures
            ini_parse(text@) is None ==> r matches Err(WireguardParseError::IniError(_)),
            ini_parse(text@) matches Some(secs) ==> parse_result_view(r) == decode_peer_config(
                secs,
            ),
    {
        let ini = match ini_load_from_str(text) {
            Ok(i) => i,
            Err(e) => {
                return Err(WireguardParseError::IniError(e));
            },
        };
        let iface = match ini_section(&ini, "Interface") {
            Some(s) => s,
            None => {
                return Err(WireguardParseError::MissingSection(PeerConfigSection::Interface));
            },
        };
        let address_text = match properties_get(iface, "Address") {
            Some(v) => v,
            None => {
                return Err(WireguardParseError::MissingValue(PeerConfigField::InterfaceAddress));
            },
        };
        let address = match IpAddrPair::from_str(address_text.as_str()) {
            Ok(a) => a,
            Err(_) => {
                return Err(
                    WireguardParseError::IpPairParseError(PeerConfigField::InterfaceAddress),
                );
            },
        };
        let key_text = match properties_get(iface, "PrivateKey") {
            Some(v) => v,
            None => {
                return Err(WireguardParseError::MissingValue(PeerConfigField::InterfacePrivateKey));
            },
        };
        let peer_private_key = match WgKey::from_base64(key_text.as_str()) {
            Ok(k) => k,
            Err(_) => {
                return Err(
                    WireguardParseError::WgKeyParseError(PeerConfigField::InterfacePrivateKey),
                );
            },
        };
        let dns = match properties_get(iface, "DNS") {
            Some(v) => match IpAddrPair::from_str(v.as_str()) {
                Ok(d) => Some(d),
                Err(_) => {
                    return Err(WireguardParseError::IpPairParseError(PeerConfigField::InterfaceDns));
                },
            },
            None => None,
        };
        let peer = match ini_section(&ini, "Peer") {
            Some(s) => s,
            None => {
                return Err(WireguardParseError::MissingSection(PeerConfigSection::Peer));
            },
        };
        let public_text = match properties_get(peer, "PublicKey") {
            Some(v) => v,
            None => {
                return Err(WireguardParseError::MissingValue(PeerConfigField::PeerPublicKey));
            },
        };
        let server_public_key = match WgKey::from_base64(public_text.as_str()) {
            Ok(k) => k,
            Err(_) => {
                return Err(WireguardParseError::WgKeyParseError(PeerConfigField::PeerPublicKey));
            },
        };
        let psk_text = match properties_get(peer, "PresharedKey") {
            Some(v) => v,
            None => {
                return Err(WireguardParseError::MissingValue(PeerConfigField::PeerPresharedKey));
            },
        };
        let preshared_key = match WgKey::from_base64(psk_text.as_str()) {
            Ok(k) => k,
            Err(_) => {
                return Err(WireguardParseError::WgKeyParseError(PeerConfigField::PeerPresharedKey));
            },
        };
        let endpoint_text = match properties_get(peer, "Endpoint") {
            Some(v) => v,
            None => {
                return Err(WireguardParseError::MissingValue(PeerConfigField::PeerEndpoint));
            },
        };
        let server_endpoint = match SocketAddress::from_str(endpoint_text.as_str()) {
            Ok(e) => e,
            Err(_) => {
                return Err(WireguardParseError::SocketAddrParseError(PeerConfigField::PeerEndpoint));
            },
        };
        let ips_text = match properties_get(peer, "AllowedIPs") {
            Some(v) => v,
            None => {
                return Err(WireguardParseError::MissingValue(PeerConfigField::PeerAllowedIps));
            },
        };
        let allowed_ips = match parse_allowed_ips(ips_text.as_str()) {
            Ok(v) => v,
            Err(e) => {
                return Err(e);
            },
        };
        Ok(
            WireguardPeerConfig {
                address,
                dns,
                peer_private_key,
                server_public_key,
                preshared_key,
                server_endpoint,
                allowed_ips,
            },
        )
    }
}

/// The written file ends with every allowed IP, in order, joined by commas:
/// it is the file of the same configuration without allowed IPs, whose last
/// line is `AllowedIPs = `, followed by that list; split at its commas the
/// value gives the list back.
pub proof fn lemma_allowed_ips_line(c: PeerConfigView)
    requires
        forall|i: int| 0 <= i < c.allowed_ips.len() ==> is_ip_net_text(#[trigger] c.allowed_ips[i]),
    ensures
        ({
            let head = render_peer_config(PeerConfigView { allowed_ips: Seq::empty(), ..c });
            &&& render_peer_config(c) == head + join_commas(c.allowed_ips)
            &&& head.len() >= 14
            &&& head.subrange(head.len() - 14, head.len() as int) == "\nAllowedIPs = "@
        }),
        c.allowed_ips.len() == 0 ==> join_commas(c.allowed_ips).len() == 0,
        c.allowed_ips.len() >= 1 ==> split_commas(join_commas(c.allowed_ips)) == c.allowed_ips,
{
    reveal_strlit("\nAllowedIPs = ");
    let bare = PeerConfigView { allowed_ips: Seq::empty(), ..c };
    let head = render_peer_config(bare);
    assert(join_commas(bare.allowed_ips) =~= Seq::<char>::empty());
    assert(head =~= render_peer_config(bare));
    assert(render_peer_config(c) =~= head + join_commas(c.allowed_ips));
    assert(head.subrange(head.len() - 14, head.len() as int) =~= "\nAllowedIPs = "@);
    if c.allowed_ips.len() >= 1 {
        assert forall|i: int| 0 <= i < c.allowed_ips.len() implies !(#[trigger] c.allowed_ips[i]).contains(',') by {
            assert(is_ip_net_text(c.allowed_ips[i]));
        }
        lemma_split_join_commas(c.allowed_ips);
    }
}

/// The configuration that a network and a tunnel make exists only once the
/// network is deployed and the tunnel configured or connected, with an
/// address, a valid server key, a valid preshared key, an endpoint and
/// allowed IPs; it then takes the tunnel's address, the network's DNS
/// server, the holder's key, the network's server key, the tunnel's
/// preshared key, the network's first endpoint and all of its allowed IPs,
/// in order.
pub proof fn lemma_crd_config_fields(key: Seq<char>, network: &Network, tunnel: &Tunnel)
    ensures
        network.status is None ==> peer_config_from_crd(key, network, tunnel) == Err::<
            PeerConfigView,
            WireguardError,
        >(WireguardError::NetworkNotReady),
        peer_config_from_crd(key, network, tunnel) matches Ok(c) ==> {
            &&& network.status matches Some(ns)
            &&& tunnel.status matches Some(ts)
            &&& ns.state == NetworkState::Deployed
            &&& (ts.state == TunnelState::Configured || ts.state == TunnelState::Connected)
            &&& ts.address matches Some(a) && c.address == a@
            &&& c.dns == opt_pair_view(ns.dns)
            &&& c.peer_private_key == key
            &&& ns.server_public_key matches Some(k) && c.server_public_key == k@
            &&& c.preshared_key == tunnel.spec.preshared_key@
            &&& ns.endpoints matches Some(eps) && eps@.len() >= 1 && c.server_endpoint == eps@[0]@
            &&& ns.allowed_ips matches Some(ips) && c.allowed_ips.len() == ips@.len() && forall|
                i: int,
            | 0 <= i < ips@.len() ==> c.allowed_ips[i] == (#[trigger] ips@[i])@
        },
{
}

/// Reading a configuration from INI sections takes each value from its own
/// key: the address, private key and DNS server from `[Interface]`'s
/// `Address`, `PrivateKey` and `DNS`; the server key, preshared key and
/// endpoint from `[Peer]`'s `PublicKey`, `PresharedKey` and `Endpoint`; the
/// allowed IPs are the pieces of `AllowedIPs` between its commas, all of
/// them, in order.
pub proof fn lemma_decoded_fields_come_from_their_keys(secs: IniSections)
    ensures
        decode_peer_config(secs) matches Ok(c) ==> {
            &&& section_lookup(secs, "Interface"@) matches Some(iface)
            &&& section_lookup(secs, "Peer"@) matches Some(peer)
            &&& property_lookup(iface, "Address"@) == Some(c.address)
            &&& property_lookup(iface, "PrivateKey"@) == Some(c.peer_private_key)
            &&& property_lookup(iface, "DNS"@) == c.dns
            &&& property_lookup(peer, "PublicKey"@) == Some(c.server_public_key)
            &&& property_lookup(peer, "PresharedKey"@) == Some(c.preshared_key)
            &&& property_lookup(peer, "Endpoint"@) == Some(c.server_endpoint)
            &&& property_lookup(peer, "AllowedIPs"@) matches Some(v) && split_commas(v) == c.allowed_ips
        },
{
}

} // verus!
