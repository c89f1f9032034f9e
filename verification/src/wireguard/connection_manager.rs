//! The active connections: at most one per network, each with its
//! configuration and metadata files.
use vstd::prelude::*;
use crate::config::network::NetworkIdentifier;
use crate::config::tunnel::TunnelIdentifier;
use crate::path::{
    extension, file_stem, join_path, path_extension, path_file_stem, path_join, path_with_extension,
    with_extension,
};
use crate::text::{decimal, push_decimal, push_str};
use super::meta::InsiderPeerMeta;
use super::peer_config::WireguardPeerConfig;

verus! {

/// An active connection: its tunnel and the paths of its files.
pub struct TunnelInfo {
    pub tunnel: TunnelIdentifier,
    pub config_path: String,
    pub meta_path: String,
}

/// Why a connection operation was refused.
#[derive(Debug)]
pub enum ConnectionError {
    /// Another tunnel of the named network is connected.
    AlreadyConnected(String),
    /// No connection to the named network.
    NotConnected(String),
    /// Several connections are active, so none is the default one.
    MultipleConnections,
    /// No connection is active.
    NoConnections,
    /// The connection's metadata lacks the cluster domain.
    MissingClusterDomain,
    /// The peer configuration lacks a DNS server.
    MissingDns,
    /// DNS patching is not available on this operating system.
    UnsupportedOs,
}

/// What connecting to a tunnel takes.
pub enum ConnectionPlan {
    /// The tunnel already has a configuration file: bring it up again.
    Reconnect { config_path: String },
    /// Write the configuration and metadata to these files, then bring it up.
    Create { config_path: String, meta_path: String },
}

/// The name of the `index`-th configuration file: `insider{index}.{extension}`.
pub open spec fn connection_file_name(index: nat, extension: Seq<char>) -> Seq<char> {
    seq!['i', 'n', 's', 'i', 'd', 'e', 'r'] + decimal(index) + seq!['.'] + extension
}

/// The extension of configuration files.
pub open spec fn conf_extension() -> Seq<char> {
    seq!['c', 'o', 'n', 'f']
}

/// The extension of metadata files.
pub open spec fn meta_extension() -> Seq<char> {
    seq!['m', 'e', 't', 'a']
}

/// Two connections belong to the same network.
pub open spec fn same_network(a: TunnelInfo, b: TunnelInfo) -> bool {
    a.tunnel.network.same_as_spec(b.tunnel.network)
}

/// Whether some connection belongs to `network`.
pub open spec fn has_connection(s: Seq<TunnelInfo>, network: NetworkIdentifier) -> bool {
    exists|i: int| 0 <= i < s.len() && (#[trigger] s[i]).tunnel.network.same_as_spec(network)
}

/// The active connections, by network.
pub struct ConnectionManager {
    pub config_directory: String,
    pub active_connections: Vec<TunnelInfo>,
}

fn file_name_for(index: usize, conf: bool) -> (r: String)
    ensures
        r@ == connection_file_name(index as nat, if conf {
            conf_extension()
        } else {
            meta_extension()
        }),
{
    let mut r = String::new();
    push_str(&mut r, "insider");
    push_decimal(&mut r, index as u64);
    if conf {
        push_str(&mut r, ".conf");
    } else {
        push_str(&mut r, ".meta");
    }
    proof {
        reveal_strlit("insider");
        reveal_strlit(".conf");
        reveal_strlit(".meta");
        assert("insider"@ =~= seq!['i', 'n', 's', 'i', 'd', 'e', 'r']);
        assert(".conf"@ =~= seq!['.'] + conf_extension());
        assert(".meta"@ =~= seq!['.'] + meta_extension());
    }
    r
}

impl ConnectionManager {
    /// The connections in the order they were recorded.
    pub open spec fn connections(&self) -> Seq<TunnelInfo> {
        self.active_connections@
    }

    /// No two connections belong to the same network.
    pub open spec fn well_formed(&self) -> bool {
        forall|i: int, j: int|
            0 <= i < j < self.connections().len() ==> !same_network(
                #[trigger] self.connections()[i],
                #[trigger] self.connections()[j],
            )
    }

    /// A manager of the files in `config_directory`, with no connection yet.
    pub fn new(config_directory: String) -> (r: Self)
        ensures
            r.well_formed(),
            r.config_directory == config_directory,
            r.connections() == Seq::<TunnelInfo>::empty(),
    {
        ConnectionManager { config_directory, active_connections: Vec::new() }
    }

    /// Number of active connections.
    pub fn len(&self) -> (n: usize)
        ensures
            n == self.connections().len(),
    {
        self.active_connections.len()
    }

    /// The position of the connection of `network`.
    pub fn find_connection(&self, network: &NetworkIdentifier) -> (r: Option<usize>)
        ensures
            match r {
                Some(i) => i < self.connections().len() && self.connections()[i as int].tunnel.network.same_as_spec(*network),
                None => !has_connection(self.connections(), *network),
            },
    {
        let n = self.active_connections.len();
        let mut i: usize = 0;
        while i < n
            invariant
                n == self.connections().len(),
                i <= n,
                forall|j: int|
                    0 <= j < i ==> !(#[trigger] self.connections()[j]).tunnel.network.same_as_spec(
                        *network,
                    ),
            decreases n - i,
        {
            if self.active_connections[i].tunnel.network.same_as(network) {
                return Some(i);
            }
            i = i + 1;
        }
        None
    }

    /// Records a connection found on disk, replacing one of the same network.
    pub fn add_loaded(&mut self, info: TunnelInfo)
        requires
            old(self).well_formed(),
        ensures
            final(self).well_formed(),
            final(self).config_directory == old(self).config_directory,
            has_connection(old(self).connections(), info.tunnel.network) ==> exists|i: int|
                #![trigger old(self).connections()[i]]
                0 <= i < old(self).connections().len()
                    && old(self).connections()[i].tunnel.network.same_as_spec(info.tunnel.network)
                    && final(self).connections() == old(self).connections().update(i, info),
            !has_connection(old(self).connections(), info.tunnel.network) ==> final(self).connections() == old(self).connections().push(info),
    {
        match self.find_connection(&info.tunnel.network) {
            Some(i) => {
                let ghost old_s = self.connections();
                self.active_connections.set(i, info);
                assert forall|a: int, b: int|
                    0 <= a < b < self.connections().len() implies !same_network(
                    #[trigger] self.connections()[a],
                    #[trigger] self.connections()[b],
                ) by {
                    if a == i {
                        assert(!same_network(old_s[i as int], old_s[b]));
                    } else if b == i {
                        assert(!same_network(old_s[a], old_s[i as int]));
                    }
                }
            },
            None => {
                let ghost old_s = self.connections();
                let ghost net = info.tunnel.network;
                self.active_connections.push(info);
                assert forall|a: int, b: int|
                    0 <= a < b < self.connections().len() implies !same_network(
                    #[trigger] self.connections()[a],
                    #[trigger] self.connections()[b],
                ) by {
                    if b == old_s.len() {
                        assert(!old_s[a].tunnel.network.same_as_spec(net));
                    }
                }
            },
        }
    }

    /// What connecting to `tunnel` takes: bringing its files up again when it
    /// is the connected tunnel of its network, refusing when another tunnel of
    /// that network is connected, and otherwise new files in the directory,
    /// numbered by the count of connections.
    pub fn plan_connection(&self, tunnel: &TunnelIdentifier) -> (r: Result<ConnectionPlan, ConnectionError>)
        ensures
            match r {
                Ok(ConnectionPlan::Reconnect { config_path }) => exists|i: int|
                    0 <= i < self.connections().len() && (#[trigger] self.connections()[i]).tunnel.network.same_as_spec(
                        tunnel.network,
                    ) && self.connections()[i].tunnel.name@ == tunnel.name@ && config_path
                        == self.connections()[i].config_path,
                Ok(ConnectionPlan::Create { config_path, meta_path }) => !has_connection(
                    self.connections(),
                    tunnel.network,
                ) && config_path@ == path_join(
                    self.config_directory@,
                    connection_file_name(self.connections().len(), conf_extension()),
                ) && meta_path@ == path_join(
                    self.config_directory@,
                    connection_file_name(self.connections().len(), meta_extension()),
                ),
                Err(ConnectionError::AlreadyConnected(name)) => name@ == tunnel.network.name@
                    && exists|i: int|
                    0 <= i < self.connections().len() && (#[trigger] self.connections()[i]).tunnel.network.same_as_spec(
                        tunnel.network,
                    ) && self.connections()[i].tunnel.name@ != tunnel.name@,
                Err(_) => false,
            },
            has_connection(self.connections(), tunnel.network) ==> !(r matches Ok(
                ConnectionPlan::Create { .. },
            )),
    {
        match self.find_connection(&tunnel.network) {
            Some(i) => {
                let info = &self.active_connections[i];
                if info.tunnel.name == tunnel.name {
                    Ok(ConnectionPlan::Reconnect { config_path: info.config_path.clone() })
                } else {
                    Err(ConnectionError::AlreadyConnected(tunnel.network.name.clone()))
                }
            },
            None => {
                let n = self.active_connections.len();
                let conf_name = file_name_for(n, true);
                let meta_name = file_name_for(n, false);
                let config_path = join_path(self.config_directory.as_str(), conf_name.as_str());
                let meta_path = join_path(self.config_directory.as_str(), meta_name.as_str());
                Ok(ConnectionPlan::Create { config_path, meta_path })
            },
        }
    }

    /// Records a new connection of a network that has none.
    pub fn record_connection(&mut self, info: TunnelInfo)
        requires
            old(self).well_formed(),
            !has_connection(old(self).connections(), info.tunnel.network),
        ensures
            final(self).well_formed(),
            final(self).config_directory == old(self).config_directory,
            final(self).connections() == old(self).connections().push(info),
    {
        let ghost old_s = self.connections();
        let ghost net = info.tunnel.network;
        self.active_connections.push(info);
        assert forall|a: int, b: int|
            0 <= a < b < self.connections().len() implies !same_network(
            #[trigger] self.connections()[a],
            #[trigger] self.connections()[b],
        ) by {
            if b == old_s.len() {
                assert(!old_s[a].tunnel.network.same_as_spec(net));
            }
        }
    }

    /// Forgets the connection of `network` and hands it back.
    pub fn remove_connection(&mut self, network: &NetworkIdentifier) -> (r: Result<TunnelInfo, ConnectionError>)
        requires
            old(self).well_formed(),
        ensures
            final(self).well_formed(),
            final(self).config_directory == old(self).config_directory,
            match r {
                Ok(info) => exists|i: int|
                    #![trigger old(self).connections()[i]]
                    0 <= i < old(self).connections().len()
                        && old(self).connections()[i].tunnel.network.same_as_spec(*network)
                        && info == old(self).connections()[i]
                        && final(self).connections() == old(self).connections().remove(i),
                Err(ConnectionError::NotConnected(name)) => name@ == network.name@
                    && !has_connection(old(self).connections(), *network) && final(self).connections()
                    == old(self).connections(),
                Err(_) => false,
            },
    {
        match self.find_connection(network) {
            Some(i) => {
                let ghost old_s = self.connections();
                let info = self.active_connections.remove(i);
                assert forall|a: int, b: int|
                    0 <= a < b < self.connections().len() implies !same_network(
                    #[trigger] self.connections()[a],
                    #[trigger] self.connections()[b],
                ) by {
                    let a2 = if a < i {
                        a
                    } else {
                        a + 1
                    };
                    let b2 = if b < i {
                        b
                    } else {
                        b + 1
                    };
                    assert(self.connections()[a] == old_s[a2]);
                    assert(self.connections()[b] == old_s[b2]);
                    assert(!same_network(old_s[a2], old_s[b2]));
                }
                Ok(info)
            },
            None => Err(ConnectionError::NotConnected(network.name.clone())),
        }
    }

    /// Forgets the only connection and hands it back; refused when there are
    /// several or none.
    pub fn take_single_connection(&mut self) -> (r: Result<TunnelInfo, ConnectionError>)
        requires
            old(self).well_formed(),
        ensures
            final(self).well_formed(),
            final(self).config_directory == old(self).config_directory,
            old(self).connections().len() > 1 ==> (r matches Err(ConnectionError::MultipleConnections)
                && final(self).connections() == old(self).connections()),
            old(self).connections().len() == 0 ==> (r matches Err(ConnectionError::NoConnections)
                && final(self).connections() == old(self).connections()),
            old(self).connections().len() == 1 ==> (r matches Ok(info) && info == old(self).connections()[0] && final(self).connections() == Seq::<TunnelInfo>::empty()),
    {
        let n = self.active_connections.len();
        if n > 1 {
            return Err(ConnectionError::MultipleConnections);
        }
        if n == 0 {
            return Err(ConnectionError::NoConnections);
        }
        let info = self.active_connections.remove(0);
        assert(self.connections() =~= Seq::<TunnelInfo>::empty());
        Ok(info)
    }

    /// The file paths of the only connection; refused when there are several
    /// or none.
    pub fn single_connection_paths(&self) -> (r: Result<(&String, &String), ConnectionError>)
        ensures
            self.connections().len() > 1 ==> r matches Err(ConnectionError::MultipleConnections),
            self.connections().len() == 0 ==> r matches Err(ConnectionError::NoConnections),
            self.connections().len() == 1 ==> (r matches Ok((c, m)) && *c == self.connections()[0].config_path
                && *m == self.connections()[0].meta_path),
    {
        let n = self.active_connections.len();
        if n > 1 {
            return Err(ConnectionError::MultipleConnections);
        }
        if n == 0 {
            return Err(ConnectionError::NoConnections);
        }
        let info = &self.active_connections[0];
        Ok((&info.config_path, &info.meta_path))
    }

    /// The file paths of the connection of `network`.
    pub fn connection_paths(&self, network: &NetworkIdentifier) -> (r: Result<(&String, &String), ConnectionError>)
        ensures
            match r {
                Ok((c, m)) => exists|i: int|
                    0 <= i < self.connections().len() && (#[trigger] self.connections()[i]).tunnel.network.same_as_spec(
                        *network,
                    ) && *c == self.connections()[i].config_path && *m
                        == self.connections()[i].meta_path,
                Err(ConnectionError::NotConnected(name)) => name@ == network.name@
                    && !has_connection(self.connections(), *network),
                Err(_) => false,
            },
    {
        match self.find_connection(network) {
            Some(i) => {
                let info = &self.active_connections[i];
                Ok((&info.config_path, &info.meta_path))
            },
            None => Err(ConnectionError::NotConnected(network.name.clone())),
        }
    }
}

/// Disconnecting a network right after connecting it: the connection found
/// for that network is the one just recorded, and removing it leaves the
/// other connections as they were.
pub proof fn lemma_record_then_remove(before: ConnectionManager, info: TunnelInfo, i: int)
    requires
        before.well_formed(),
        !has_connection(before.connections(), info.tunnel.network),
        0 <= i < before.connections().push(info).len(),
        before.connections().push(info)[i].tunnel.network.same_as_spec(info.tunnel.network),
    ensures
        i == before.connections().len(),
        before.connections().push(info)[i] == info,
        before.connections().push(info).remove(i) == before.connections(),
{
    let s = before.connections();
    if i < s.len() {
        assert(s.push(info)[i] == s[i]);
        assert(has_connection(s, info.tunnel.network));
    }
    assert(s.push(info).remove(i) =~= s);
}

/// Whether a file of the connections folder is a peer configuration: its
/// extension is `conf`.
pub fn is_connection_file(path: &str) -> (b: bool)
    ensures
        b == (path_extension(path@) == Some("conf"@)),
{
    match extension(path) {
        Some(e) => crate::name_map::str_equal(e.as_str(), "conf"),
        None => false,
    }
}

/// The metadata file that goes with a peer configuration file: the same path
/// with the extension `meta`.
pub fn meta_path_for(config_path: &str) -> (r: String)
    ensures
        r@ == path_with_extension(config_path@, "meta"@),
{
    with_extension(config_path, "meta")
}

/// The operating system the tool runs on.
#[derive(Clone, Copy, Debug, PartialEq, Eq, Structural)]
pub enum TargetOs {
    Linux,
    Windows,
    Other,
}

/// How to make the system resolver send the cluster's domain to the network's DNS server.
pub enum DnsPatch {
    /// `resolvectl domain <interface_name> <domain>`.
    Resolvectl { interface_name: String, domain: String },
    /// A Name Resolution Policy Table rule sending `domain` to `dns`.
    NrptRule { dns: String, domain: String },
}

/// How to patch the resolver for a connection: the cluster domain is needed
/// everywhere; on Linux the interface is named after the configuration file,
/// on Windows the network's DNS server is needed.
pub fn plan_dns_patch(
    meta: &InsiderPeerMeta,
    config: &WireguardPeerConfig,
    config_path: &str,
    os: TargetOs,
) -> (r: Result<DnsPatch, ConnectionError>)
    requires
        os == TargetOs::Linux ==> path_file_stem(config_path@) is Some,
    ensures
        meta.cluster_domain is None ==> r matches Err(ConnectionError::MissingClusterDomain),
        meta.cluster_domain matches Some(domain) ==> match os {
            TargetOs::Linux => r matches Ok(DnsPatch::Resolvectl { interface_name, domain: d })
                && Some(interface_name@) == path_file_stem(config_path@) && d@ == domain@,
            TargetOs::Windows => match config.dns {
                Some(dns) => r matches Ok(DnsPatch::NrptRule { dns: x, domain: d }) && x@ == dns@
                    && d@ == domain@,
                None => r matches Err(ConnectionError::MissingDns),
            },
            TargetOs::Other => r matches Err(ConnectionError::UnsupportedOs),
        },
{
    let domain = match &meta.cluster_domain {
        Some(d) => d,
        None => {
            return Err(ConnectionError::MissingClusterDomain);
        },
    };
    match os {
        TargetOs::Linux => {
            let interface_name = file_stem(config_path).unwrap();
            Ok(DnsPatch::Resolvectl { interface_name, domain: domain.clone() })
        },
        TargetOs::Windows => match &config.dns {
            Some(dns) => Ok(DnsPatch::NrptRule { dns: dns.to_string(), domain: domain.clone() }),
            None => Err(ConnectionError::MissingDns),
        },
        TargetOs::Other => Err(ConnectionError::UnsupportedOs),
    }
}

/// What undoing a resolver patch takes: the DNS server and the cluster domain,
/// when the resolver was patched and both are known; nothing otherwise.
pub fn plan_dns_unpatch(meta: &InsiderPeerMeta, config: &WireguardPeerConfig) -> (r: Option<(String, String)>)
    ensures
        match r {
            Some((dns, domain)) => {
                &&& meta.dns_patched
                &&& config.dns matches Some(d) && dns@ == d@
                &&& meta.cluster_domain matches Some(c) && domain@ == c@
            },
            None => !meta.dns_patched || config.dns is None || meta.cluster_domain is None,
        },
{
    if !meta.dns_patched {
        return None;
    }
    let dns = match &config.dns {
        Some(d) => d.to_string(),
        None => {
            return None;
        },
    };
    match &meta.cluster_domain {
        Some(c) => Some((dns, c.clone())),
        None => None,
    }
}

} // verus!
