//! `create network` and `create tunnel`: the resources they apply and the
//! local configuration entries they record.
use vstd::prelude::*;
use crate::cli::{CreateNetworkArgs, ServiceType};
use crate::config::{generated_network_name, ConfigError, InsiderConfig, name_with_context};
use crate::config::network::{NetworkConfig, NetworkIdentifier};
use crate::config::tunnel::TunnelConfig;
use crate::crd::{Network, NetworkService, NetworkSpec, ObjectMeta, Tunnel, TunnelSpec};
use crate::name_map::{first_free_name, numbered_name};
use crate::net::IpAddrPair;
use crate::text::{push_char, push_str, to_owned_string};
use crate::wireguard::keys::{dnssec_base32, WgKey};

verus! {

/// The texts of a sequence of address pairs.
pub open spec fn pairs_view(v: Seq<IpAddrPair>) -> Seq<Seq<char>> {
    v.map_values(|p: IpAddrPair| p@)
}

/// The text of an optional address pair.
pub open spec fn opt_pair_view(p: Option<IpAddrPair>) -> Option<Seq<char>> {
    match p {
        Some(x) => Some(x@),
        None => None,
    }
}

/// The texts of an optional sequence of address pairs.
pub open spec fn opt_pairs_view(p: Option<Vec<IpAddrPair>>) -> Option<Seq<Seq<char>>> {
    match p {
        Some(v) => Some(pairs_view(v@)),
        None => None,
    }
}

fn copy_pairs(v: &Vec<IpAddrPair>) -> (r: Vec<IpAddrPair>)
    ensures
        pairs_view(r@) == pairs_view(v@),
{
    let mut r: Vec<IpAddrPair> = Vec::new();
    let mut i: usize = 0;
    while i < v.len()
        invariant
            i <= v@.len(),
            pairs_view(r@) == pairs_view(v@).take(i as int),
        decreases v@.len() - i,
    {
        let ghost prev = r@;
        let p = v[i].duplicate();
        r.push(p);
        assert(pairs_view(r@) =~= pairs_view(prev).push(p@));
        assert(pairs_view(r@) =~= pairs_view(v@).take(i + 1));
        i = i + 1;
    }
    assert(pairs_view(v@).take(v@.len() as int) =~= pairs_view(v@));
    r
}

fn copy_opt_pair(p: &Option<IpAddrPair>) -> (r: Option<IpAddrPair>)
    ensures
        opt_pair_view(r) == opt_pair_view(*p),
{
    match p {
        Some(x) => Some(x.duplicate()),
        None => None,
    }
}

/// Why a network resource cannot be made from the arguments.
#[derive(Debug, Clone, Copy, PartialEq, Eq, Structural)]
pub enum CreateNetworkError {
    /// An `ExternalIp` service was asked for without external addresses.
    MissingExternalIp,
}

/// Whether the service of a network resource is the one the arguments ask for.
pub open spec fn service_matches(s: Option<NetworkService>, args: CreateNetworkArgs) -> bool {
    match args.service_type {
        ServiceType::NoService => s is None,
        ServiceType::ClusterIp => s matches Some(NetworkService::ClusterIp { ip }) && opt_pair_view(
            ip,
        ) == opt_pair_view(args.cluster_ip),
        ServiceType::NodePort => s matches Some(
            NetworkService::NodePort { cluster_ip, predefined_ips },
        ) && opt_pair_view(cluster_ip) == opt_pair_view(args.cluster_ip) && opt_pairs_view(
            predefined_ips,
        ) == opt_pairs_view(args.external_ip),
        ServiceType::LoadBalancer => s matches Some(NetworkService::LoadBalancer { cluster_ip })
            && opt_pair_view(cluster_ip) == opt_pair_view(args.cluster_ip),
        ServiceType::ExternalIp => s matches Some(NetworkService::ExternalIp { cluster_ip, ips })
            && opt_pair_view(cluster_ip) == opt_pair_view(args.cluster_ip) && Some(pairs_view(ips@))
            == opt_pairs_view(args.external_ip),
    }
}

/// The network resource that `create network` applies in `namespace`: named
/// after the arguments, with their peer CIDR and the service they ask for;
/// an `ExternalIp` service needs external addresses.
pub fn create_network_crd(namespace: String, args: &CreateNetworkArgs) -> (r: Result<
    Network,
    CreateNetworkError,
>)
    ensures
        r is Err <==> (args.service_type == ServiceType::ExternalIp && args.external_ip is None),
        r matches Err(e) ==> e == CreateNetworkError::MissingExternalIp,
        r matches Ok(n) ==> {
            &&& n.metadata.name matches Some(x) && x@ == args.name@
            &&& n.metadata.namespace matches Some(x) && x@ == namespace@
            &&& n.spec.peer_cidr@ == args.peer_cidr@
            &&& service_matches(n.spec.network_service, *args)
            &&& n.spec.nat is None
            &&& n.status is None
        },
{
    let cluster_ip = copy_opt_pair(&args.cluster_ip);
    let service = match args.service_type {
        ServiceType::NoService => None,
        ServiceType::ClusterIp => Some(NetworkService::ClusterIp { ip: cluster_ip }),
        ServiceType::NodePort => Some(
            NetworkService::NodePort {
                cluster_ip,
                predefined_ips: match &args.external_ip {
                    Some(ips) => Some(copy_pairs(ips)),
                    None => None,
                },
            },
        ),
        ServiceType::LoadBalancer => Some(NetworkService::LoadBalancer { cluster_ip }),
        ServiceType::ExternalIp => match &args.external_ip {
            Some(ips) => Some(NetworkService::ExternalIp { cluster_ip, ips: copy_pairs(ips) }),
            None => {
                return Err(CreateNetworkError::MissingExternalIp);
            },
        },
    };
    Ok(
        Network {
            metadata: ObjectMeta { name: Some(args.name.clone()), namespace: Some(namespace) },
            spec: NetworkSpec {
                peer_cidr: args.peer_cidr.duplicate(),
                network_service: service,
                nat: None,
            },
            status: None,
        },
    )
}

/// What `create network` does about a network resource of the same name.
#[derive(Debug, Clone, Copy, PartialEq, Eq, Structural)]
pub enum ApplyDecision {
    /// No such network: it is created.
    Create,
    /// It exists and forcing was asked: the changes are applied to it.
    Update,
    /// It exists: nothing is done.
    Skip,
}

/// A new network is created; an existing one is updated only when forced.
pub fn plan_network_apply(exists: bool, force: bool) -> (r: ApplyDecision)
    ensures
        !exists ==> r == ApplyDecision::Create,
        exists && force ==> r == ApplyDecision::Update,
        exists && !force ==> r == ApplyDecision::Skip,
{
    if !exists {
        ApplyDecision::Create
    } else if force {
        ApplyDecision::Update
    } else {
        ApplyDecision::Skip
    }
}

/// Why a created resource could not be recorded in the local configuration.
#[derive(Debug)]
pub enum WriteConfigError {
    /// The resource has no name.
    MissingName,
    /// The resource has no namespace.
    MissingNamespace,
    /// The configuration refused the entry.
    Config(ConfigError),
}

/// The local name a new network gets: its own name if free, else
/// `name-context` if free, else the first free numbered form of the latter.
pub open spec fn local_network_name_ok(
    config: InsiderConfig,
    name: Seq<char>,
    context: Seq<char>,
    local: Seq<char>,
) -> bool {
    &&& !config.networks_map().dom().contains(local)
    &&& !config.networks_map().dom().contains(name) ==> local == name
    &&& config.networks_map().dom().contains(name) && !config.networks_map().dom().contains(
        name_with_context(name, context),
    ) ==> local == name_with_context(name, context)
    &&& config.networks_map().dom().contains(name) && config.networks_map().dom().contains(
        name_with_context(name, context),
    ) ==> exists|i: nat|
        local == numbered_name(name_with_context(name, context), i) && forall|j: nat|
            j < i ==> config.networks_map().dom().contains(
                #[trigger] numbered_name(name_with_context(name, context), j),
            )
}

/// Records a network resource applied in the kube context `kube_context`:
/// the network, with no tunnels, under a fresh local name, which is
/// returned. A resource without name or namespace is refused; the entry
/// itself is never refused, its local name being free.
pub fn write_network_config(crd: &Network, kube_context: &str, config: &mut InsiderConfig) -> (r:
    Result<String, WriteConfigError>)
    requires
        old(config).well_formed(),
    ensures
        final(config).well_formed(),
        final(config).path == old(config).path,
        crd.metadata.name is None ==> (r matches Err(WriteConfigError::MissingName) && *final(config) == *old(config)),
        crd.metadata.name is Some && crd.metadata.namespace is None ==> (r matches Err(
            WriteConfigError::MissingNamespace,
        ) && *final(config) == *old(config)),
        (crd.metadata.name is Some && crd.metadata.namespace is Some) ==> r is Ok,
        r matches Ok(local) ==> {
            &&& crd.metadata.name matches Some(name)
            &&& crd.metadata.namespace matches Some(ns)
            &&& local_network_name_ok(*old(config), name@, kube_context@, local@)
            &&& local@ == generated_network_name(
                old(config).networks_map().dom(),
                name@,
                kube_context@,
            )
            &&& final(config).networks_map().dom() == old(config).networks_map().dom().insert(
                local@,
            )
            &&& final(config).networks_map()[local@].id.name@ == name@
            &&& final(config).networks_map()[local@].id.namespace@ == ns@
            &&& final(config).networks_map()[local@].id.context@ == kube_context@
            &&& final(config).networks_map()[local@].tunnels_map() == Map::<
                Seq<char>,
                TunnelConfig,
            >::empty()
            &&& forall|k: Seq<char>|
                k != local@ && #[trigger] old(config).networks_map().dom().contains(k) ==> final(config).networks_map()[k] == old(config).networks_map()[k]
        },
{
    let name = match &crd.metadata.name {
        Some(n) => n.clone(),
        None => {
            return Err(WriteConfigError::MissingName);
        },
    };
    let namespace = match &crd.metadata.namespace {
        Some(n) => n.clone(),
        None => {
            return Err(WriteConfigError::MissingNamespace);
        },
    };
    let entry = NetworkConfig::from_identifier(
        NetworkIdentifier::new(name, namespace, to_owned_string(kube_context)),
    );
    let local_name = config.generate_config_network_name(&entry);
    let result = local_name.clone();
    match config.try_add_network(local_name, entry) {
        Ok(()) => Ok(result),
        Err(e) => Err(WriteConfigError::Config(e)),
    }
}

/// The name of a tunnel resource: the network's name, a dash, and the
/// DNSSEC base32 form of the peer's public key.
pub open spec fn tunnel_crd_name(network_name: Seq<char>, public_key: Seq<char>) -> Seq<char> {
    network_name + seq!['-'] + dnssec_base32(public_key)
}

/// The tunnel resource that `create tunnel` creates in `namespace` for a
/// peer with the given keys.
pub fn create_tunnel_crd(
    network_name: &str,
    namespace: &str,
    public_key: &WgKey,
    preshared_key: &WgKey,
    static_ip: Option<IpAddrPair>,
) -> (r: Tunnel)
    ensures
        r.metadata.name matches Some(n) && n@ == tunnel_crd_name(network_name@, public_key@),
        r.metadata.namespace matches Some(n) && n@ == namespace@,
        r.spec.network@ == network_name@,
        r.spec.peer_public_key@ == public_key@,
        r.spec.preshared_key@ == preshared_key@,
        r.spec.static_ip == static_ip,
        r.status is None,
{
    let mut name = to_owned_string(network_name);
    push_char(&mut name, '-');
    let encoded = public_key.to_dnssec_base32();
    push_str(&mut name, encoded.as_str());
    Tunnel {
        metadata: ObjectMeta { name: Some(name), namespace: Some(to_owned_string(namespace)) },
        spec: TunnelSpec {
            network: to_owned_string(network_name),
            peer_public_key: public_key.to_base64(),
            preshared_key: preshared_key.to_base64(),
            static_ip,
        },
        status: None,
    }
}

/// Records a created tunnel resource, with the peer's private key, in the
/// network stored under `network`, under the local name given or else a
/// fresh one, which is returned. A missing network, a resource without a
/// name, or a given name already in use is refused.
pub fn write_tunnel_config(
    network: &str,
    name: Option<&str>,
    crd: &Tunnel,
    private_key: &WgKey,
    config: &mut InsiderConfig,
) -> (r: Result<String, WriteConfigError>)
    requires
        old(config).well_formed(),
    ensures
        final(config).well_formed(),
        final(config).path == old(config).path,
        !old(config).networks_map().dom().contains(network@) ==> (r matches Err(
            WriteConfigError::Config(ConfigError::NetworkNotPresent(n)),
        ) && n@ == network@ && *final(config) == *old(config)),
        old(config).networks_map().dom().contains(network@) && crd.metadata.name is None ==> (
        r matches Err(WriteConfigError::MissingName) && *final(config) == *old(config)),
        old(config).networks_map().dom().contains(network@) && crd.metadata.name is Some ==> (
        match name {
            Some(n) => old(config).networks_map()[network@].tunnels_map().dom().contains(n@) <==> (
            r matches Err(WriteConfigError::Config(ConfigError::TunnelAlreadyPresent(m))) && m@
                == n@),
            None => r is Ok,
        }),
        r matches Ok(local) ==> {
            &&& old(config).networks_map().dom().contains(network@)
            &&& crd.metadata.name matches Some(crd_name)
            &&& (name matches Some(n) ==> local@ == n@)
            &&& (name is None ==> local@ == first_free_name(
                old(config).networks_map()[network@].tunnels_map().dom(),
                "tun"@,
            ))
            &&& !old(config).networks_map()[network@].tunnels_map().dom().contains(local@)
            &&& final(config).networks_map() == old(config).networks_map().insert(
                network@,
                final(config).networks_map()[network@],
            )
            &&& final(config).networks_map()[network@].id == old(config).networks_map()[network@].id
            &&& final(config).networks_map()[network@].tunnels_map() == old(config).networks_map()[network@].tunnels_map().insert(
                local@,
                final(config).networks_map()[network@].tunnels_map()[local@],
            )
            &&& final(config).networks_map()[network@].tunnels_map()[local@].name@ == crd_name@
            &&& final(config).networks_map()[network@].tunnels_map()[local@].private_key@
                == private_key@
        },
        r is Err ==> final(config).networks_map() == old(config).networks_map(),
{
    let crd_name = match &crd.metadata.name {
        Some(n) => n.clone(),
        None => {
            if config.try_get_network(network).is_none() {
                return Err(
                    WriteConfigError::Config(ConfigError::NetworkNotPresent(to_owned_string(network))),
                );
            }
            return Err(WriteConfigError::MissingName);
        },
    };
    let entry = TunnelConfig::new(crd_name, private_key.duplicate());
    match config.try_get_network_mut(network) {
        Some(net) => {
            let local_name = match name {
                Some(n) => to_owned_string(n),
                None => net.generate_config_tunnel_name(),
            };
            let result = local_name.clone();
            match net.try_add_tunnel(local_name, entry) {
                Ok(()) => Ok(result),
                Err(e) => Err(WriteConfigError::Config(e)),
            }
        },
        None => Err(
            WriteConfigError::Config(ConfigError::NetworkNotPresent(to_owned_string(network))),
        ),
    }
}

/// The service of a created network is of the kind the arguments ask for,
/// with the cluster IP they give; a node port keeps the external addresses
/// as its predefined ones, and an external-IP service exposes them.
pub proof fn lemma_service_kind_is_asked(s: Option<NetworkService>, args: CreateNetworkArgs)
    requires
        service_matches(s, args),
    ensures
        args.service_type == ServiceType::NoService <==> s is None,
        args.service_type == ServiceType::ClusterIp <==> s matches Some(NetworkService::ClusterIp { .. }),
        args.service_type == ServiceType::NodePort <==> s matches Some(NetworkService::NodePort { .. }),
        args.service_type == ServiceType::LoadBalancer <==> s matches Some(
            NetworkService::LoadBalancer { .. },
        ),
        args.service_type == ServiceType::ExternalIp <==> s matches Some(
            NetworkService::ExternalIp { .. },
        ),
        s matches Some(NetworkService::ClusterIp { ip }) ==> opt_pair_view(ip) == opt_pair_view(
            args.cluster_ip,
        ),
        s matches Some(NetworkService::NodePort { cluster_ip, predefined_ips }) ==> opt_pair_view(
            cluster_ip,
        ) == opt_pair_view(args.cluster_ip) && opt_pairs_view(predefined_ips) == opt_pairs_view(
            args.external_ip,
        ),
        s matches Some(NetworkService::LoadBalancer { cluster_ip }) ==> opt_pair_view(cluster_ip)
            == opt_pair_view(args.cluster_ip),
        s matches Some(NetworkService::ExternalIp { cluster_ip, ips }) ==> opt_pair_view(cluster_ip)
            == opt_pair_view(args.cluster_ip) && Some(pairs_view(ips@)) == opt_pairs_view(
            args.external_ip,
        ),
{
}

} // verus!
