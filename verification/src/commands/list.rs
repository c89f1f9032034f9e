//! Listings of the networks and tunnels found on the cluster.
use vstd::prelude::*;
use crate::crd::{Network, NetworkService, NetworkState, Tunnel, TunnelState};
use crate::name_map::str_equal;
use crate::net::{IpAddrPair, IpNetwork, SocketAddress};
use crate::output::{
    network_service_text, network_state_text, strings_view, tunnel_state_text, CellText,
    TableCellOption, TableCellSlice, TableOutputRow,
};
use crate::text::to_owned_string;
use crate::net::is_ip_net_text;
use crate::wireguard::peer_config::{join_commas, lemma_split_join_commas, split_commas};

verus! {

/// A text, or `-` for none.
pub open spec fn or_dash(t: Option<Seq<char>>) -> Seq<char> {
    match t {
        Some(x) => x,
        None => seq!['-'],
    }
}

/// The text of an optional string.
pub open spec fn opt_text(t: Option<String>) -> Option<Seq<char>> {
    match t {
        Some(x) => Some(x@),
        None => None,
    }
}

/// The text of an optional address pair.
pub open spec fn opt_pair_text(t: Option<IpAddrPair>) -> Option<Seq<char>> {
    match t {
        Some(x) => Some(x@),
        None => None,
    }
}

/// The cells of a network's row: name, peer CIDR, service kind, server
/// public key, DNS server, endpoints, allowed IPs and state, each `-` where
/// the resource has none.
pub open spec fn network_row(n: Network) -> Seq<Seq<char>> {
    seq![
        or_dash(opt_text(n.metadata.name)),
        n.spec.peer_cidr@,
        or_dash(
            match n.spec.network_service {
                Some(s) => Some(network_service_text(s)),
                None => None,
            },
        ),
        or_dash(
            match n.status {
                Some(s) => opt_text(s.server_public_key),
                None => None,
            },
        ),
        or_dash(
            match n.status {
                Some(s) => opt_pair_text(s.dns),
                None => None,
            },
        ),
        or_dash(
            match n.status {
                Some(s) => match s.endpoints {
                    Some(e) => Some(join_commas(e@.map_values(|a: SocketAddress| a@))),
                    None => None,
                },
                None => None,
            },
        ),
        or_dash(
            match n.status {
                Some(s) => match s.allowed_ips {
                    Some(e) => Some(join_commas(e@.map_values(|a: IpNetwork| a@))),
                    None => None,
                },
                None => None,
            },
        ),
        or_dash(
            match n.status {
                Some(s) => Some(network_state_text(s.state)),
                None => None,
            },
        ),
    ]
}

/// A row of the networks on the cluster.
pub struct NetworkView<'a> {
    pub name: TableCellOption<&'a str>,
    pub peer_cidr: &'a IpNetwork,
    pub network_service_type: TableCellOption<&'a NetworkService>,
    pub server_public_key: TableCellOption<&'a str>,
    pub dns: TableCellOption<&'a IpAddrPair>,
    pub endpoints: TableCellOption<TableCellSlice<'a, SocketAddress>>,
    pub allowed_ips: TableCellOption<TableCellSlice<'a, IpNetwork>>,
    pub state: TableCellOption<&'a NetworkState>,
}

fn opt_str<'a>(t: &'a Option<String>) -> (r: Option<&'a str>)
    ensures
        match r {
            Some(x) => t matches Some(y) && x@ == y@,
            None => t is None,
        },
{
    match t {
        Some(x) => Some(x.as_str()),
        None => None,
    }
}

impl<'a> NetworkView<'a> {
    /// The row of a network.
    pub fn from(value: &'a Network) -> (r: Self)
        ensures
            r.row_text() == network_row(*value),
    {
        let name = TableCellOption::new(opt_str(&value.metadata.name));
        let service = TableCellOption::new(
            match &value.spec.network_service {
                Some(s) => Some(s),
                None => None,
            },
        );
        let r = match &value.status {
            Some(s) => NetworkView {
                name,
                peer_cidr: &value.spec.peer_cidr,
                network_service_type: service,
                server_public_key: TableCellOption::new(opt_str(&s.server_public_key)),
                dns: TableCellOption::new(
                    match &s.dns {
                        Some(d) => Some(d),
                        None => None,
                    },
                ),
                endpoints: TableCellOption::new(
                    match &s.endpoints {
                        Some(e) => Some(TableCellSlice::new(e.as_slice())),
                        None => None,
                    },
                ),
                allowed_ips: TableCellOption::new(
                    match &s.allowed_ips {
                        Some(e) => Some(TableCellSlice::new(e.as_slice())),
                        None => None,
                    },
                ),
                state: TableCellOption::new(Some(&s.state)),
            },
            None => NetworkView {
                name,
                peer_cidr: &value.spec.peer_cidr,
                network_service_type: service,
                server_public_key: TableCellOption::new(None),
                dns: TableCellOption::new(None),
                endpoints: TableCellOption::new(None),
                allowed_ips: TableCellOption::new(None),
                state: TableCellOption::new(None),
            },
        };
        proof {
            match &value.status {
                Some(s) => {
                    match &s.endpoints {
                        Some(e) => {
                            assert(e@.map_values(|x: SocketAddress| x.cell_text()) =~= e@.map_values(
                                |a: SocketAddress| a@,
                            ));
                        },
                        None => {},
                    }
                    match &s.allowed_ips {
                        Some(e) => {
                            assert(e@.map_values(|x: IpNetwork| x.cell_text()) =~= e@.map_values(
                                |a: IpNetwork| a@,
                            ));
                        },
                        None => {},
                    }
                },
                None => {},
            }
            assert(r.row_text() =~= network_row(*value));
        }
        r
    }
}

impl<'a> TableOutputRow for NetworkView<'a> {
    open spec fn name_text(&self) -> Seq<char> {
        self.name.cell_text()
    }

    open spec fn column_names_text() -> Seq<Seq<char>> {
        seq![
            "NAME"@,
            "PEER_CIDR"@,
            "NETWORK_SERVICE_TYPE"@,
            "SERVER_PUBLIC_KEY"@,
            "DNS"@,
            "ENDPOINTS"@,
            "ALLOWED_IPS"@,
            "STATE"@,
        ]
    }

    open spec fn row_text(&self) -> Seq<Seq<char>> {
        seq![
            self.name.cell_text(),
            self.peer_cidr.cell_text(),
            self.network_service_type.cell_text(),
            self.server_public_key.cell_text(),
            self.dns.cell_text(),
            self.endpoints.cell_text(),
            self.allowed_ips.cell_text(),
            self.state.cell_text(),
        ]
    }

    fn get_name(&self) -> (r: String) {
        self.name.to_cell()
    }

    fn get_column_names() -> (r: Vec<String>) {
        let mut r: Vec<String> = Vec::new();
        r.push(to_owned_string("NAME"));
        r.push(to_owned_string("PEER_CIDR"));
        r.push(to_owned_string("NETWORK_SERVICE_TYPE"));
        r.push(to_owned_string("SERVER_PUBLIC_KEY"));
        r.push(to_owned_string("DNS"));
        r.push(to_owned_string("ENDPOINTS"));
        r.push(to_owned_string("ALLOWED_IPS"));
        r.push(to_owned_string("STATE"));
        assert(strings_view(r@) =~= Self::column_names_text());
        r
    }

    fn get_column_count() -> (r: usize) {
        8
    }

    fn get_row(&self) -> (r: Vec<String>) {
        let mut r: Vec<String> = Vec::new();
        r.push(self.name.to_cell());
        r.push(self.peer_cidr.to_cell());
        r.push(self.network_service_type.to_cell());
        r.push(self.server_public_key.to_cell());
        r.push(self.dns.to_cell());
        r.push(self.endpoints.to_cell());
        r.push(self.allowed_ips.to_cell());
        r.push(self.state.to_cell());
        assert(strings_view(r@) =~= self.row_text());
        r
    }
}

/// The rows of the networks, in the order given.
pub fn list_networks<'a>(networks: &'a Vec<Network>) -> (r: Vec<NetworkView<'a>>)
    ensures
        r@.len() == networks@.len(),
        forall|i: int| 0 <= i < r@.len() ==> (#[trigger] r@[i]).row_text() == network_row(networks@[i]),
{
    let mut r: Vec<NetworkView<'a>> = Vec::new();
    let mut i: usize = 0;
    while i < networks.len()
        invariant
            i <= networks@.len(),
            r@.len() == i,
            forall|k: int| 0 <= k < i ==> (#[trigger] r@[k]).row_text() == network_row(networks@[k]),
        decreases networks@.len() - i,
    {
        r.push(NetworkView::from(&networks[i]));
        i = i + 1;
    }
    r
}

/// The cells of a tunnel's row: network, name, peer public key, preshared
/// key, requested static address, current address and state.
pub open spec fn tunnel_row(t: Tunnel) -> Seq<Seq<char>> {
    seq![
        t.spec.network@,
        or_dash(opt_text(t.metadata.name)),
        t.spec.peer_public_key@,
        t.spec.preshared_key@,
        or_dash(opt_pair_text(t.spec.static_ip)),
        or_dash(
            match t.status {
                Some(s) => opt_pair_text(s.address),
                None => None,
            },
        ),
        or_dash(
            match t.status {
                Some(s) => Some(tunnel_state_text(s.state)),
                None => None,
            },
        ),
    ]
}

/// A row of the tunnels on the cluster.
pub struct TunnelView<'a> {
    pub network: &'a str,
    pub name: TableCellOption<&'a str>,
    pub peer_public_key: &'a str,
    pub preshared_key: &'a str,
    pub requested_static_ip: TableCellOption<&'a IpAddrPair>,
    pub current_address: TableCellOption<&'a IpAddrPair>,
    pub state: TableCellOption<&'a TunnelState>,
}

impl<'a> TunnelView<'a> {
    /// The row of a tunnel.
    pub fn from(value: &'a Tunnel) -> (r: Self)
        ensures
            r.row_text() == tunnel_row(*value),
    {
        let r = TunnelView {
            network: value.spec.network.as_str(),
            name: TableCellOption::new(opt_str(&value.metadata.name)),
            peer_public_key: value.spec.peer_public_key.as_str(),
            preshared_key: value.spec.preshared_key.as_str(),
            requested_static_ip: TableCellOption::new(
                match &value.spec.static_ip {
                    Some(a) => Some(a),
                    None => None,
                },
            ),
            current_address: TableCellOption::new(
                match &value.status {
                    Some(s) => match &s.address {
                        Some(a) => Some(a),
                        None => None,
                    },
                    None => None,
                },
            ),
            state: TableCellOption::new(
                match &value.status {
                    Some(s) => Some(&s.state),
                    None => None,
                },
            ),
        };
        assert(r.row_text() =~= tunnel_row(*value));
        r
    }
}

impl<'a> TableOutputRow for TunnelView<'a> {
    open spec fn name_text(&self) -> Seq<char> {
        self.name.cell_text()
    }

    open spec fn column_names_text() -> Seq<Seq<char>> {
        seq![
            "NETWORK"@,
            "NAME"@,
            "PEER_PUBLIC_KEY"@,
            "PRESHARED_KEY"@,
            "REQUESTED_STATIC_IP"@,
            "CURRENT_ADDRESS"@,
            "STATE"@,
        ]
    }

    open spec fn row_text(&self) -> Seq<Seq<char>> {
        seq![
            self.network@,
            self.name.cell_text(),
            self.peer_public_key@,
            self.preshared_key@,
            self.requested_static_ip.cell_text(),
            self.current_address.cell_text(),
            self.state.cell_text(),
        ]
    }

    fn get_name(&self) -> (r: String) {
        self.name.to_cell()
    }

    fn get_column_names() -> (r: Vec<String>) {
        let mut r: Vec<String> = Vec::new();
        r.push(to_owned_string("NETWORK"));
        r.push(to_owned_string("NAME"));
        r.push(to_owned_string("PEER_PUBLIC_KEY"));
        r.push(to_owned_string("PRESHARED_KEY"));
        r.push(to_owned_string("REQUESTED_STATIC_IP"));
        r.push(to_owned_string("CURRENT_ADDRESS"));
        r.push(to_owned_string("STATE"));
        assert(strings_view(r@) =~= Self::column_names_text());
        r
    }

    fn get_column_count() -> (r: usize) {
        7
    }

    fn get_row(&self) -> (r: Vec<String>) {
        let mut r: Vec<String> = Vec::new();
        r.push(to_owned_string(self.network));
        r.push(self.name.to_cell());
        r.push(to_owned_string(self.peer_public_key));
        r.push(to_owned_string(self.preshared_key));
        r.push(self.requested_static_ip.to_cell());
        r.push(self.current_address.to_cell());
        r.push(self.state.to_cell());
        assert(strings_view(r@) =~= self.row_text());
        r
    }
}

/// The rows of the tunnels that belong to `network` (all of them without a
/// network), in the order given.
pub open spec fn tunnel_rows(ts: Seq<Tunnel>, network: Option<Seq<char>>) -> Seq<Seq<Seq<char>>>
    decreases ts.len(),
{
    if ts.len() == 0 {
        Seq::empty()
    } else {
        let keep = match network {
            Some(n) => ts.last().spec.network@ == n,
            None => true,
        };
        if keep {
            tunnel_rows(ts.drop_last(), network).push(tunnel_row(ts.last()))
        } else {
            tunnel_rows(ts.drop_last(), network)
        }
    }
}

/// The cells of each of a sequence of tunnel rows.
pub open spec fn tunnel_views_text<'a>(v: Seq<TunnelView<'a>>) -> Seq<Seq<Seq<char>>> {
    v.map_values(|t: TunnelView<'a>| t.row_text())
}

/// The rows of the tunnels, those of the named network alone when a network
/// is given.
pub fn list_tunnels<'a>(tunnels: &'a Vec<Tunnel>, network: Option<&str>) -> (r: Vec<TunnelView<'a>>)
    ensures
        tunnel_views_text(r@) == tunnel_rows(
            tunnels@,
            match network {
                Some(n) => Some(n@),
                None => None,
            },
        ),
{
    let ghost filter = match network {
        Some(n) => Some(n@),
        None => None,
    };
    let mut r: Vec<TunnelView<'a>> = Vec::new();
    let mut i: usize = 0;
    while i < tunnels.len()
        invariant
            filter == match network {
                Some(n) => Some(n@),
                None => None::<Seq<char>>,
            },
            i <= tunnels@.len(),
            tunnel_views_text(r@) == tunnel_rows(tunnels@.take(i as int), filter),
        decreases tunnels@.len() - i,
    {
        let t = &tunnels[i];
        let keep = match network {
            Some(n) => str_equal(t.spec.network.as_str(), n),
            None => true,
        };
        assert(tunnels@.take(i + 1).drop_last() =~= tunnels@.take(i as int));
        if keep {
            let ghost prev = r@;
            r.push(TunnelView::from(t));
            assert(tunnel_views_text(r@) =~= tunnel_views_text(prev).push(tunnel_row(*t)));
        }
        i = i + 1;
    }
    assert(tunnels@.take(tunnels@.len() as int) =~= tunnels@);
    r
}

/// A tunnel's row has seven cells under the seven column names; the
/// `REQUESTED_STATIC_IP` cell is the static IP of its spec and the
/// `CURRENT_ADDRESS` cell the address of its status, each `-` without one,
/// so that neither depends on the other.
pub proof fn lemma_tunnel_row_addresses(t: Tunnel)
    ensures
        tunnel_row(t).len() == 7,
        TunnelView::column_names_text()[4] == "REQUESTED_STATIC_IP"@,
        TunnelView::column_names_text()[5] == "CURRENT_ADDRESS"@,
        TunnelView::column_names_text()[6] == "STATE"@,
        tunnel_row(t)[4] == match t.spec.static_ip {
            Some(a) => a@,
            None => seq!['-'],
        },
        tunnel_row(t)[5] == match t.status {
            Some(s) => match s.address {
                Some(a) => a@,
                None => seq!['-'],
            },
            None => seq!['-'],
        },
        tunnel_row(t)[6] == match t.status {
            Some(s) => tunnel_state_text(s.state),
            None => seq!['-'],
        },
{
}

/// A network's row has eight cells under the eight column names: its name,
/// its peer CIDR, the kind of its service, and from its status (`-` without
/// one) the server key, DNS server, endpoints, allowed IPs and state; the
/// allowed-IPs cell, split at its commas, lists every allowed IP in order.
pub proof fn lemma_network_row_cells(n: Network)
    ensures
        network_row(n).len() == 8,
        NetworkView::column_names_text()[1] == "PEER_CIDR"@,
        NetworkView::column_names_text()[2] == "NETWORK_SERVICE_TYPE"@,
        NetworkView::column_names_text()[6] == "ALLOWED_IPS"@,
        NetworkView::column_names_text()[7] == "STATE"@,
        network_row(n)[0] == or_dash(opt_text(n.metadata.name)),
        network_row(n)[1] == n.spec.peer_cidr@,
        network_row(n)[2] == match n.spec.network_service {
            Some(s) => network_service_text(s),
            None => seq!['-'],
        },
        n.status is None ==> network_row(n)[3] == seq!['-'] && network_row(n)[4] == seq!['-']
            && network_row(n)[5] == seq!['-'] && network_row(n)[6] == seq!['-'] && network_row(n)[7]
            == seq!['-'],
        n.status matches Some(s) ==> network_row(n)[7] == network_state_text(s.state),
        n.status matches Some(s) ==> (s.allowed_ips matches Some(e) ==> (e@.len() >= 1 && (forall|
            i: int,
        | 0 <= i < e@.len() ==> is_ip_net_text(#[trigger] e@[i]@)) ==> split_commas(network_row(n)[6])
            == e@.map_values(|a: IpNetwork| a@))),
{
    if let Some(s) = n.status {
        if let Some(e) = s.allowed_ips {
            let items = e@.map_values(|a: IpNetwork| a@);
            if e@.len() >= 1 && (forall|i: int| 0 <= i < e@.len() ==> is_ip_net_text(#[trigger] e@[i]@)) {
                assert forall|i: int| 0 <= i < items.len() implies !(#[trigger] items[i]).contains(',') by {
                    assert(is_ip_net_text(e@[i]@));
                }
                lemma_split_join_commas(items);
            }
        }
    }
}

/// Listing two lists of tunnels one after the other gives the rows of the
/// first followed by those of the second: every tunnel is looked at, in
/// order.
pub proof fn lemma_tunnel_rows_append(s: Seq<Tunnel>, t: Seq<Tunnel>, network: Option<Seq<char>>)
    ensures
        tunnel_rows(s + t, network) == tunnel_rows(s, network) + tunnel_rows(t, network),
    decreases t.len(),
{
    if t.len() == 0 {
        assert(s + t =~= s);
        assert(tunnel_rows(s, network) + tunnel_rows(t, network) =~= tunnel_rows(s, network));
    } else {
        assert((s + t).drop_last() =~= s + t.drop_last());
        assert((s + t).last() == t.last());
        lemma_tunnel_rows_append(s, t.drop_last(), network);
        assert(tunnel_rows(s, network) + tunnel_rows(t.drop_last(), network).push(tunnel_row(t.last()))
            =~= (tunnel_rows(s, network) + tunnel_rows(t.drop_last(), network)).push(
            tunnel_row(t.last()),
        ));
    }
}

/// A single tunnel is listed, with its own row, when no network is named or
/// it belongs to the named one; otherwise it is left out.
pub proof fn lemma_single_tunnel_listed(t: Tunnel, network: Option<Seq<char>>)
    ensures
        tunnel_rows(seq![t], network) == if network is None || network == Some(t.spec.network@) {
            seq![tunnel_row(t)]
        } else {
            Seq::<Seq<Seq<char>>>::empty()
        },
{
    assert(seq![t].drop_last() =~= Seq::<Tunnel>::empty());
    assert(seq![t].last() == t);
    assert(tunnel_rows(seq![t].drop_last(), network) =~= Seq::<Seq<Seq<char>>>::empty());
    if network is None || network == Some(t.spec.network@) {
        assert(tunnel_rows(seq![t], network) =~= seq![tunnel_row(t)]);
    } else {
        assert(tunnel_rows(seq![t], network) =~= Seq::<Seq<Seq<char>>>::empty());
    }
}

} // verus!
