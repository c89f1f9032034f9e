//! Listings of the networks and tunnels kept in the local configuration.
use vstd::prelude::*;
use crate::config::InsiderConfig;
use crate::config::network::NetworkConfig;
use crate::output::{strings_view, TableOutputRow};
use crate::text::to_owned_string;

verus! {

/// A row of the configured networks: local name, cluster context, namespace.
pub struct NetworkConfigView<'a> {
    pub name: &'a str,
    pub context: &'a str,
    pub namespace: &'a str,
}

/// The cells of a configured network's row.
pub open spec fn network_config_row(name: Seq<char>, network: NetworkConfig) -> Seq<Seq<char>> {
    seq![name, network.id.context@, network.id.namespace@]
}

impl<'a> NetworkConfigView<'a> {
    /// The row of the network stored under `name`.
    pub fn from(name: &'a String, network: &'a NetworkConfig) -> (r: Self)
        ensures
            r.row_text() == network_config_row(name@, *network),
    {
        NetworkConfigView {
            name: name.as_str(),
            context: network.id.context.as_str(),
            namespace: network.id.namespace.as_str(),
        }
    }
}

fn strings3(a: &str, b: &str, c: &str) -> (r: Vec<String>)
    ensures
        strings_view(r@) == seq![a@, b@, c@],
        r@.len() == 3,
{
    let mut r: Vec<String> = Vec::new();
    r.push(to_owned_string(a));
    r.push(to_owned_string(b));
    r.push(to_owned_string(c));
    assert(strings_view(r@) =~= seq![a@, b@, c@]);
    r
}

fn strings6(a: &str, b: &str, c: &str, d: &str, e: &str, f: &str) -> (r: Vec<String>)
    ensures
        strings_view(r@) == seq![a@, b@, c@, d@, e@, f@],
        r@.len() == 6,
{
    let mut r: Vec<String> = Vec::new();
    r.push(to_owned_string(a));
    r.push(to_owned_string(b));
    r.push(to_owned_string(c));
    r.push(to_owned_string(d));
    r.push(to_owned_string(e));
    r.push(to_owned_string(f));
    assert(strings_view(r@) =~= seq![a@, b@, c@, d@, e@, f@]);
    r
}

impl<'a> TableOutputRow for NetworkConfigView<'a> {
    open spec fn name_text(&self) -> Seq<char> {
        self.name@
    }

    open spec fn column_names_text() -> Seq<Seq<char>> {
        seq!["NAME"@, "CONTEXT"@, "NAMESPACE"@]
    }

    open spec fn row_text(&self) -> Seq<Seq<char>> {
        seq![self.name@, self.context@, self.namespace@]
    }

    fn get_name(&self) -> (r: String) {
        to_owned_string(self.name)
    }

    fn get_column_names() -> (r: Vec<String>) {
        strings3("NAME", "CONTEXT", "NAMESPACE")
    }

    fn get_column_count() -> (r: usize) {
        3
    }

    fn get_row(&self) -> (r: Vec<String>) {
        strings3(self.name, self.context, self.namespace)
    }
}

/// The rows of the configured networks, in ascending order of local name.
pub fn config_list_networks<'a>(config: &'a InsiderConfig) -> (r: Vec<NetworkConfigView<'a>>)
    requires
        config.well_formed(),
    ensures
        r@.len() == config.network_entries().len(),
        forall|i: int|
            0 <= i < r@.len() ==> (#[trigger] r@[i]).row_text() == network_config_row(
                config.network_entries()[i].0,
                config.network_entries()[i].1,
            ),
{
    let networks = config.list_networks();
    let mut r: Vec<NetworkConfigView<'a>> = Vec::new();
    let mut i: usize = 0;
    while i < networks.len()
        invariant
            networks@.len() == config.network_entries().len(),
            forall|k: int|
                0 <= k < networks@.len() ==> (#[trigger] networks@[k]).0@
                    == config.network_entries()[k].0 && *networks@[k].1
                    == config.network_entries()[k].1,
            i <= networks@.len(),
            r@.len() == i,
            forall|k: int|
                0 <= k < i ==> (#[trigger] r@[k]).row_text() == network_config_row(
                    config.network_entries()[k].0,
                    config.network_entries()[k].1,
                ),
        decreases networks@.len() - i,
    {
        let (name, network) = networks[i];
        r.push(NetworkConfigView::from(name, network));
        i = i + 1;
    }
    r
}

/// A row of the configured tunnels: the local names of network and tunnel,
/// then the network's name, context and namespace, and the tunnel's resource
/// name.
pub struct TunnelConfigView<'a> {
    pub local_network_name: &'a str,
    pub local_name: &'a str,
    pub network: &'a str,
    pub context: &'a str,
    pub namespace: &'a str,
    pub crd_name: &'a str,
}

/// The rows of the tunnels of the network stored under `name`.
pub open spec fn network_tunnel_rows(name: Seq<char>, network: NetworkConfig) -> Seq<Seq<Seq<char>>> {
    network.tunnel_entries().map_values(
        |t: (Seq<char>, crate::config::tunnel::TunnelConfig)|
            seq![
                name,
                t.0,
                network.id.name@,
                network.id.context@,
                network.id.namespace@,
                t.1.name@,
            ],
    )
}

/// The rows of the tunnels of every network in `entries`, network by network.
pub open spec fn all_tunnel_rows(entries: Seq<(Seq<char>, NetworkConfig)>) -> Seq<Seq<Seq<char>>>
    decreases entries.len(),
{
    if entries.len() == 0 {
        Seq::empty()
    } else {
        all_tunnel_rows(entries.drop_last()) + network_tunnel_rows(
            entries.last().0,
            entries.last().1,
        )
    }
}

/// The cells of each of a sequence of rows.
pub open spec fn tunnel_view_rows<'a>(v: Seq<TunnelConfigView<'a>>) -> Seq<Seq<Seq<char>>> {
    v.map_values(|t: TunnelConfigView<'a>| t.row_text())
}

impl<'a> TableOutputRow for TunnelConfigView<'a> {
    open spec fn name_text(&self) -> Seq<char> {
        self.local_name@
    }

    open spec fn column_names_text() -> Seq<Seq<char>> {
        seq![
            "LOCAL_NETWORK_NAME"@,
            "LOCAL_NAME"@,
            "NETWORK"@,
            "CONTEXT"@,
            "NAMESPACE"@,
            "CRD_NAME"@,
        ]
    }

    open spec fn row_text(&self) -> Seq<Seq<char>> {
        seq![
            self.local_network_name@,
            self.local_name@,
            self.network@,
            self.context@,
            self.namespace@,
            self.crd_name@,
        ]
    }

    fn get_name(&self) -> (r: String) {
        to_owned_string(self.local_name)
    }

    fn get_column_names() -> (r: Vec<String>) {
        strings6("LOCAL_NETWORK_NAME", "LOCAL_NAME", "NETWORK", "CONTEXT", "NAMESPACE", "CRD_NAME")
    }

    fn get_column_count() -> (r: usize) {
        6
    }

    fn get_row(&self) -> (r: Vec<String>) {
        strings6(
            self.local_network_name,
            self.local_name,
            self.network,
            self.context,
            self.namespace,
            self.crd_name,
        )
    }
}

/// Appends the rows of the tunnels of the network stored under `name`.
fn push_network_tunnels<'a>(
    out: &mut Vec<TunnelConfigView<'a>>,
    name: &'a String,
    network: &'a NetworkConfig,
)
    requires
        network.well_formed(),
    ensures
        tunnel_view_rows(final(out)@) == tunnel_view_rows(old(out)@) + network_tunnel_rows(
            name@,
            *network,
        ),
{
    let tunnels = network.list_tunnels();
    let ghost start = out@;
    let ghost rows = network_tunnel_rows(name@, *network);
    let mut i: usize = 0;
    while i < tunnels.len()
        invariant
            rows == network_tunnel_rows(name@, *network),
            rows.len() == tunnels@.len(),
            tunnels@.len() == network.tunnel_entries().len(),
            forall|k: int|
                0 <= k < tunnels@.len() ==> (#[trigger] tunnels@[k]).0@
                    == network.tunnel_entries()[k].0 && *tunnels@[k].1
                    == network.tunnel_entries()[k].1,
            i <= tunnels@.len(),
            tunnel_view_rows(out@) == tunnel_view_rows(start) + rows.take(i as int),
        decreases tunnels@.len() - i,
    {
        let (local_name, tunnel) = tunnels[i];
        let ghost prev = out@;
        out.push(
            TunnelConfigView {
                local_network_name: name.as_str(),
                local_name: local_name.as_str(),
                network: network.id.name.as_str(),
                context: network.id.context.as_str(),
                namespace: network.id.namespace.as_str(),
                crd_name: tunnel.name.as_str(),
            },
        );
        assert(tunnel_view_rows(out@) =~= tunnel_view_rows(prev).push(out@.last().row_text()));
        assert(rows.take(i + 1) =~= rows.take(i as int).push(rows[i as int]));
        assert(out@.last().row_text() =~= rows[i as int]);
        assert(tunnel_view_rows(out@) =~= tunnel_view_rows(start) + rows.take(i + 1));
        i = i + 1;
    }
    assert(rows.take(tunnels@.len() as int) =~= rows);
}

/// The rows of the configured tunnels: those of the named network when a
/// name is given (none when no network has it), else those of every network
/// in ascending order of local name, each network's in ascending order of
/// local name.
pub fn config_list_tunnels<'a>(network: Option<&str>, config: &'a InsiderConfig) -> (r: Vec<
    TunnelConfigView<'a>,
>)
    requires
        config.well_formed(),
    ensures
        tunnel_view_rows(r@) == match network {
            Some(n) => if config.networks_map().dom().contains(n@) {
                network_tunnel_rows(n@, config.networks_map()[n@])
            } else {
                Seq::empty()
            },
            None => all_tunnel_rows(config.network_entries()),
        },
{
    let mut r: Vec<TunnelConfigView<'a>> = Vec::new();
    assert(tunnel_view_rows(r@) =~= Seq::empty());
    match network {
        Some(n) => {
            match config.try_get_network(n) {
                Some((name, net)) => {
                    push_network_tunnels(&mut r, name, net);
                    assert(tunnel_view_rows(r@) =~= network_tunnel_rows(n@, *net));
                },
                None => {},
            }
        },
        None => {
            let networks = config.list_networks();
            proof {
                config.networks.lemma_well_formed();
            }
            let mut i: usize = 0;
            while i < networks.len()
                invariant
                    config.well_formed(),
                    networks@.len() == config.network_entries().len(),
                    forall|k: int|
                        0 <= k < networks@.len() ==> (#[trigger] networks@[k]).0@
                            == config.network_entries()[k].0 && *networks@[k].1
                            == config.network_entries()[k].1,
                    forall|k: int|
                        0 <= k < config.network_entries().len() ==> #[trigger] config.networks_map().dom().contains(
                            config.network_entries()[k].0,
                        ) && config.networks_map()[config.network_entries()[k].0]
                            == config.network_entries()[k].1,
                    i <= networks@.len(),
                    tunnel_view_rows(r@) == all_tunnel_rows(
                        config.network_entries().take(i as int),
                    ),
                decreases networks@.len() - i,
            {
                let (name, net) = networks[i];
                assert(config.networks_map().dom().contains(config.network_entries()[i as int].0));
                push_network_tunnels(&mut r, name, net);
                assert(config.network_entries().take(i + 1).drop_last()
                    =~= config.network_entries().take(i as int));
                i = i + 1;
            }
            assert(config.network_entries().take(networks@.len() as int)
                =~= config.network_entries());
        },
    }
    r
}

} // verus!
