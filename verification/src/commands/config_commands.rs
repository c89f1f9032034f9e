//! Choosing, adding, listing and removing entries of the local configuration.
use vstd::prelude::*;
use crate::cli::{
    ConfigAddNetworkArgs, ConfigAddTunnelArgs, ConfigRemoveNetworkArgs, ConfigRemoveTunnelArgs,
    GlobalArgs,
};
use crate::config::{generated_network_name, ConfigError, InsiderConfig};
use crate::name_map::first_free_name;
use crate::config::network::{NetworkConfig, NetworkIdentifier};
use crate::config::tunnel::TunnelConfig;
use crate::text::to_owned_string;
use crate::wireguard::keys::WgKey;

verus! {

/// The named tunnel of a network, or its only tunnel when no name is given
/// (`None` when it has none).
pub fn try_get_tunnel_config<'a>(name: Option<&str>, config_network: &'a NetworkConfig) -> (r: Result<
    Option<(&'a String, &'a TunnelConfig)>,
    ConfigError,
>)
    requires
        config_network.well_formed(),
    ensures
        match name {
            Some(n) => if config_network.tunnels_map().dom().contains(n@) {
                r matches Ok(Some(kv)) && kv.0@ == n@ && *kv.1 == config_network.tunnels_map()[n@]
            } else {
                r matches Err(ConfigError::TunnelNotPresent(m)) && m@ == n@
            },
            None => if config_network.tunnels_map().dom().len() > 1 {
                r matches Err(ConfigError::MultipleTunnels)
            } else if config_network.tunnels_map().dom().len() == 0 {
                r matches Ok(None)
            } else {
                r matches Ok(Some(kv)) && config_network.tunnels_map().dom().contains(kv.0@)
                    && *kv.1 == config_network.tunnels_map()[kv.0@]
            },
        },
{
    match name {
        Some(n) => match config_network.try_get_tunnel(n) {
            Some(kv) => Ok(Some(kv)),
            None => Err(ConfigError::TunnelNotPresent(to_owned_string(n))),
        },
        None => config_network.try_get_default_tunnel(),
    }
}

/// The named network, or the only network when no name is given.
pub fn get_network_or_default<'a>(config: &'a InsiderConfig, name: Option<&str>) -> (r: Result<
    (&'a String, &'a NetworkConfig),
    ConfigError,
>)
    requires
        config.well_formed(),
    ensures
        match name {
            Some(n) => if config.networks_map().dom().contains(n@) {
                r matches Ok(kv) && kv.0@ == n@ && *kv.1 == config.networks_map()[n@]
            } else {
                r matches Err(ConfigError::NetworkNotPresent(m)) && m@ == n@
            },
            None => if config.networks_map().dom().len() > 1 {
                r matches Err(ConfigError::MultipleNetworks)
            } else if config.networks_map().dom().len() == 0 {
                r matches Err(ConfigError::NoNetworks)
            } else {
                r matches Ok(kv) && config.networks_map().dom().contains(kv.0@) && *kv.1
                    == config.networks_map()[kv.0@]
            },
        },
{
    match name {
        Some(n) => match config.try_get_network(n) {
            Some(kv) => Ok(kv),
            None => Err(ConfigError::NetworkNotPresent(to_owned_string(n))),
        },
        None => match config.try_get_default_network() {
            Ok(Some(kv)) => Ok(kv),
            Ok(None) => Err(ConfigError::NoNetworks),
            Err(e) => Err(e),
        },
    }
}

/// The named tunnel of a network, or its only tunnel when no name is given.
pub fn get_tunnel_or_default<'a>(network: &'a NetworkConfig, name: Option<&str>) -> (r: Result<
    (&'a String, &'a TunnelConfig),
    ConfigError,
>)
    requires
        network.well_formed(),
    ensures
        match name {
            Some(n) => if network.tunnels_map().dom().contains(n@) {
                r matches Ok(kv) && kv.0@ == n@ && *kv.1 == network.tunnels_map()[n@]
            } else {
                r matches Err(ConfigError::TunnelNotPresent(m)) && m@ == n@
            },
            None => if network.tunnels_map().dom().len() > 1 {
                r matches Err(ConfigError::MultipleTunnels)
            } else if network.tunnels_map().dom().len() == 0 {
                r matches Err(ConfigError::NoTunnels)
            } else {
                r matches Ok(kv) && network.tunnels_map().dom().contains(kv.0@) && *kv.1
                    == network.tunnels_map()[kv.0@]
            },
        },
{
    match name {
        Some(n) => match network.try_get_tunnel(n) {
            Some(kv) => Ok(kv),
            None => Err(ConfigError::TunnelNotPresent(to_owned_string(n))),
        },
        None => match network.try_get_default_tunnel() {
            Ok(Some(kv)) => Ok(kv),
            Ok(None) => Err(ConfigError::NoTunnels),
            Err(e) => Err(e),
        },
    }
}

/// `config add network`: stores a reference to a cluster network under its
/// local name (generated from the network's name and context unless given),
/// in the given kube context (the current one unless given) and the global
/// namespace. Only a given local name already in use is refused.
pub fn config_add_network(
    config: &mut InsiderConfig,
    global_args: &GlobalArgs,
    args: ConfigAddNetworkArgs,
    current_context: &str,
) -> (r: Result<(), ConfigError>)
    requires
        old(config).well_formed(),
    ensures
        final(config).well_formed(),
        final(config).path == old(config).path,
        args.local_name is None ==> r is Ok,
        ({
            let context = match global_args.kube_context {
                Some(c) => c@,
                None => current_context@,
            };
            let local = match args.local_name {
                Some(l) => l@,
                None => generated_network_name(old(config).networks_map().dom(), args.name@, context),
            };
            if old(config).networks_map().dom().contains(local) {
                r matches Err(ConfigError::NetworkAlreadyPresent(n)) && n@ == local && *final(config)
                    == *old(config)
            } else {
                &&& r is Ok
                &&& final(config).networks_map().dom() == old(config).networks_map().dom().insert(
                    local,
                )
                &&& forall|k: Seq<char>|
                    k != local && #[trigger] old(config).networks_map().dom().contains(k) ==> final(config).networks_map()[k] == old(config).networks_map()[k]
                &&& final(config).networks_map()[local].id.name@ == args.name@
                &&& final(config).networks_map()[local].id.namespace@ == global_args.namespace@
                &&& final(config).networks_map()[local].id.context@ == context
                &&& final(config).networks_map()[local].tunnels_map().dom().len() == 0
            }
        }),
{
    let kube_context = match &global_args.kube_context {
        Some(c) => c.clone(),
        None => to_owned_string(current_context),
    };
    let network = NetworkConfig::from_identifier(
        NetworkIdentifier::new(args.name, global_args.namespace.clone(), kube_context),
    );
    proof {
        network.lemma_well_formed();
    }
    let local_name = match &args.local_name {
        Some(l) => l.clone(),
        None => config.generate_config_network_name(&network),
    };
    config.try_add_network(local_name, network)
}

/// `config add tunnel`: stores an existing tunnel resource with its private
/// key in a stored network, under its local name (generated unless given).
pub fn config_add_tunnel(config: &mut InsiderConfig, args: ConfigAddTunnelArgs, private_key: &WgKey) -> (r:
    Result<(), ConfigError>)
    requires
        old(config).well_formed(),
    ensures
        final(config).well_formed(),
        final(config).path == old(config).path,
        !old(config).networks_map().dom().contains(args.network@) ==> (r matches Err(
            ConfigError::NetworkNotPresent(n),
        ) && n@ == args.network@ && *final(config) == *old(config)),
        old(config).networks_map().dom().contains(args.network@) ==> ({
            let before = old(config).networks_map()[args.network@];
            let after = final(config).networks_map()[args.network@];
            &&& final(config).networks_map().dom() == old(config).networks_map().dom()
            &&& forall|k: Seq<char>|
                k != args.network@ && #[trigger] old(config).networks_map().dom().contains(k)
                    ==> final(config).networks_map()[k] == old(config).networks_map()[k]
            &&& after.id == before.id
            &&& match args.local_name {
                Some(l) => if before.tunnels_map().dom().contains(l@) {
                    r matches Err(ConfigError::TunnelAlreadyPresent(n)) && n@ == l@
                        && after.tunnels_map() == before.tunnels_map()
                } else {
                    r is Ok && after.tunnels_map().dom() == before.tunnels_map().dom().insert(l@)
                        && after.tunnels_map()[l@].name@ == args.name@
                        && after.tunnels_map()[l@].private_key@ == private_key@
                },
                None => {
                    let l = first_free_name(before.tunnels_map().dom(), "tun"@);
                    &&& r is Ok
                    &&& !before.tunnels_map().dom().contains(l)
                    &&& after.tunnels_map().dom() == before.tunnels_map().dom().insert(l)
                    &&& after.tunnels_map()[l].name@ == args.name@
                    &&& after.tunnels_map()[l].private_key@ == private_key@
                },
            }
        }),
{
    let network = match config.try_get_network_mut(args.network.as_str()) {
        Some(n) => n,
        None => {
            return Err(ConfigError::NetworkNotPresent(args.network));
        },
    };
    let tunnel = TunnelConfig { name: args.name, private_key: private_key.to_base64() };
    let local_name = match args.local_name {
        Some(l) => l,
        None => network.generate_config_tunnel_name(),
    };
    network.try_add_tunnel(local_name, tunnel)
}

/// `config remove network`: whether a network was removed.
pub fn config_remove_network(config: &mut InsiderConfig, args: &ConfigRemoveNetworkArgs) -> (removed: bool)
    requires
        old(config).well_formed(),
    ensures
        final(config).well_formed(),
        final(config).path == old(config).path,
        removed == old(config).networks_map().dom().contains(args.name@),
        final(config).networks_map() == old(config).networks_map().remove(args.name@),
{
    let r = config.try_remove_network(args.name.as_str());
    proof {
        if r is Err {
            assert(old(config).networks_map().remove(args.name@) =~= old(config).networks_map());
        }
    }
    r.is_ok()
}

/// `config remove tunnel`: whether a tunnel was removed from a stored network.
pub fn config_remove_tunnel(config: &mut InsiderConfig, args: &ConfigRemoveTunnelArgs) -> (r: Result<
    bool,
    ConfigError,
>)
    requires
        old(config).well_formed(),
    ensures
        final(config).well_formed(),
        final(config).path == old(config).path,
        !old(config).networks_map().dom().contains(args.network@) ==> (r matches Err(
            ConfigError::NetworkNotPresent(n),
        ) && n@ == args.network@ && *final(config) == *old(config)),
        old(config).networks_map().dom().contains(args.network@) ==> ({
            let before = old(config).networks_map()[args.network@];
            let after = final(config).networks_map()[args.network@];
            &&& r == Ok::<bool, ConfigError>(before.tunnels_map().dom().contains(args.name@))
            &&& final(config).networks_map().dom() == old(config).networks_map().dom()
            &&& forall|k: Seq<char>|
                k != args.network@ && #[trigger] old(config).networks_map().dom().contains(k)
                    ==> final(config).networks_map()[k] == old(config).networks_map()[k]
            &&& after.id == before.id
            &&& after.tunnels_map() == before.tunnels_map().remove(args.name@)
        }),
{
    let network = match config.try_get_network_mut(args.network.as_str()) {
        Some(n) => n,
        None => {
            return Err(ConfigError::NetworkNotPresent(args.network.clone()));
        },
    };
    let ghost before = *network;
    let removed = network.try_remove_tunnel(args.name.as_str());
    proof {
        if removed is Err {
            assert(before.tunnels_map().remove(args.name@) =~= before.tunnels_map());
        }
    }
    Ok(removed.is_ok())
}

/// Where `delete network` sends its request: the resource of that name, in
/// that namespace, through the kube context the network was stored with.
pub struct DeleteNetworkRequest {
    pub context: String,
    pub name: String,
    pub namespace: String,
}

/// `delete network`, on the local side: the network leaves the config before
/// any request is made (it must be stored); the config is to be saved only
/// once the cluster reports the resource removed.
pub fn delete_network_request(config: &mut InsiderConfig, name: &str, namespace: &str) -> (r: Result<
    DeleteNetworkRequest,
    ConfigError,
>)
    requires
        old(config).well_formed(),
    ensures
        final(config).well_formed(),
        final(config).path == old(config).path,
        old(config).networks_map().dom().contains(name@) ==> (r matches Ok(q) && q.context@
            == old(config).networks_map()[name@].id.context@ && q.name@ == name@ && q.namespace@
            == namespace@ && final(config).networks_map() == old(config).networks_map().remove(name@)),
        !old(config).networks_map().dom().contains(name@) ==> (r matches Err(
            ConfigError::NetworkNotPresent(n),
        ) && n@ == name@ && *final(config) == *old(config)),
{
    match config.try_remove_network(name) {
        Ok(removed) => Ok(
            DeleteNetworkRequest {
                context: removed.id.context,
                name: to_owned_string(name),
                namespace: to_owned_string(namespace),
            },
        ),
        Err(e) => Err(e),
    }
}

/// `delete tunnel`, on the local side: removes the named tunnel from the
/// stored network and gives back the tunnel and the network's identifier
/// (where the tunnel resource is to be deleted).
pub fn delete_tunnel_entry(config: &mut InsiderConfig, network: &str, tunnel: &str) -> (r: Result<
    (TunnelConfig, NetworkIdentifier),
    ConfigError,
>)
    requires
        old(config).well_formed(),
    ensures
        final(config).well_formed(),
        final(config).path == old(config).path,
        !old(config).networks_map().dom().contains(network@) ==> (r matches Err(
            ConfigError::NetworkNotPresent(n),
        ) && n@ == network@ && final(config).networks_map() == old(config).networks_map()),
        old(config).networks_map().dom().contains(network@) && !old(config).networks_map()[network@].tunnels_map().dom().contains(tunnel@) ==> (r matches Err(
            ConfigError::TunnelNotPresent(n),
        ) && n@ == tunnel@ && final(config).networks_map() == old(config).networks_map()),
        old(config).networks_map().dom().contains(network@) && old(config).networks_map()[network@].tunnels_map().dom().contains(tunnel@) ==> (r matches Ok(
            (t, id),
        ) && t == old(config).networks_map()[network@].tunnels_map()[tunnel@] && id == old(config).networks_map()[network@].id
            && final(config).networks_map().dom() == old(config).networks_map().dom()
            && final(config).networks_map()[network@].id == id
            && final(config).networks_map()[network@].tunnels_map() == old(config).networks_map()[network@].tunnels_map().remove(tunnel@)
            && final(config).networks_map() == old(config).networks_map().insert(
            network@,
            final(config).networks_map()[network@],
        )),
{
    match config.try_get_network_mut(network) {
        Some(net) => match net.try_remove_tunnel(tunnel) {
            Ok(t) => {
                let id = net.id.duplicate();
                Ok((t, id))
            },
            Err(e) => Err(e),
        },
        None => Err(ConfigError::NetworkNotPresent(to_owned_string(network))),
    }
}

/// The connection that `disconnect` and `patch-dns` act on: that of the
/// named network (it must be stored), or, with no name, `None`: the only
/// active connection.
pub fn connection_target(config: &InsiderConfig, network: Option<&str>) -> (r: Result<
    Option<NetworkIdentifier>,
    ConfigError,
>)
    requires
        config.well_formed(),
    ensures
        match network {
            Some(n) => if config.networks_map().dom().contains(n@) {
                r matches Ok(Some(id)) && id == config.networks_map()[n@].id
            } else {
                r matches Err(ConfigError::NetworkNotPresent(m)) && m@ == n@
            },
            None => r matches Ok(None),
        },
{
    match network {
        Some(n) => match config.try_get_network(n) {
            Some((_, net)) => Ok(Some(net.id.duplicate())),
            None => Err(ConfigError::NetworkNotPresent(to_owned_string(n))),
        },
        None => Ok(None),
    }
}

} // verus!
