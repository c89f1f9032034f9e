//! The arguments of the k8s-insider command line.
use vstd::prelude::*;
use crate::net::{IpAddrPair, IpNetwork};

verus! {

/// The namespace k8s-insider works in unless told otherwise.
pub const DEFAULT_NAMESPACE: &'static str = "kube-insider";

/// The subnet peers get their addresses from unless told otherwise.
pub const DEFAULT_PEER_CIDR: &'static str = "10.11.11.0/24";

/// The controller image deployed unless told otherwise.
pub const DEFAULT_CONTROLLER_IMAGE: &'static str = "ghcr.io/truegoric/k8s-insider-controller:latest";

/// The network manager image deployed unless told otherwise.
pub const DEFAULT_NETWORK_MANAGER_IMAGE: &'static str =
    "ghcr.io/truegoric/k8s-insider-network-manager:latest";

/// The router image deployed unless told otherwise.
pub const DEFAULT_ROUTER_IMAGE: &'static str = "ghcr.io/truegoric/k8s-insider-router:latest";

/// The name of a network created without one.
pub const DEFAULT_NETWORK_NAME: &'static str = "default";

/// A whole command line.
pub struct Cli {
    pub command: Option<Commands>,
    pub global_args: GlobalArgs,
}

/// The options every command takes.
pub struct GlobalArgs {
    /// Kubernetes namespace to work with.
    pub namespace: String,
    /// Path of the k8s-insider config file.
    pub config: Option<String>,
    /// Kubeconfig to use instead of the default one.
    pub kube_config: Option<String>,
    /// Kubeconfig context to use instead of the current one.
    pub kube_context: Option<String>,
    /// Verbose output.
    pub verbose_logging: bool,
    /// Trace output (more detailed than verbose, overrides it).
    pub trace_logging: bool,
}

/// How much the tool logs.
#[derive(Clone, Copy, Debug, PartialEq, Eq, Structural)]
pub enum LogLevel {
    Normal,
    Verbose,
    Trace,
}

impl GlobalArgs {
    /// Trace when asked for, else verbose when asked for, else normal.
    pub fn get_log_level(&self) -> (r: LogLevel)
        ensures
            r == if self.trace_logging {
                LogLevel::Trace
            } else if self.verbose_logging {
                LogLevel::Verbose
            } else {
                LogLevel::Normal
            },
    {
        if self.trace_logging {
            return LogLevel::Trace;
        }
        if self.verbose_logging {
            return LogLevel::Verbose;
        }
        LogLevel::Normal
    }
}

/// The commands of the tool.
pub enum Commands {
    Install(InstallArgs),
    Uninstall(UninstallArgs),
    Create(CreateCommand),
    Delete(DeleteCommand),
    List(ListCommand),
    Connect(ConnectArgs),
    Disconnect(DisconnectArgs),
    GetConf(GetConfArgs),
    PatchDns(PatchDnsArgs),
    Config(ConfigCommand),
}

/// Options of `install`.
pub struct InstallArgs {
    /// DNS service IP (detected when unset).
    pub kube_dns: Option<String>,
    /// Cluster service CIDR (detected when unset).
    pub service_cidr: Option<IpNetwork>,
    /// Cluster domain (detected when unset).
    pub service_domain: Option<String>,
    /// Cluster pod CIDR (detected when unset).
    pub pod_cidr: Option<IpNetwork>,
    /// Leave the CRDs out.
    pub no_crds: bool,
    pub controller_image: String,
    pub controller_image_tag: String,
    pub network_manager_image: String,
    pub network_manager_image_tag: String,
    pub router_image: String,
    pub router_image_tag: String,
    /// Take no action on the cluster.
    pub dry_run: bool,
    /// Install even when a release is present.
    pub force: bool,
    /// Upgrade the present release's images.
    pub upgrade: bool,
}

/// Options of `uninstall`.
pub struct UninstallArgs {
    /// Try to remove the namespace afterwards.
    pub delete_namespace: bool,
    /// Leave the CRDs.
    pub leave_crds: bool,
    /// Take no action on the cluster.
    pub dry_run: bool,
}

/// `create`: a network or a tunnel.
pub struct CreateCommand {
    pub subcommand: CreateSubcommands,
}

/// What `create` creates.
pub enum CreateSubcommands {
    Network(CreateNetworkArgs),
    Tunnel(CreateTunnelArgs),
}

/// Options of `create network`.
pub struct CreateNetworkArgs {
    /// Name of the network.
    pub name: String,
    /// Subnet peers get their addresses from.
    pub peer_cidr: IpNetwork,
    /// How the network is exposed.
    pub service_type: ServiceType,
    /// Addresses clients connect to (required for `ExternalIp`).
    pub external_ip: Option<Vec<IpAddrPair>>,
    /// A static cluster IP for the service.
    pub cluster_ip: Option<IpAddrPair>,
    /// Take no action on the cluster.
    pub dry_run: bool,
    /// Apply changes to an existing network.
    pub force: bool,
}

/// How a network's endpoint is exposed.
#[derive(Clone, Copy, Debug, PartialEq, Eq, Structural)]
pub enum ServiceType {
    /// No service (the `None` choice of the command line).
    NoService,
    ClusterIp,
    NodePort,
    LoadBalancer,
    ExternalIp,
}

/// Options of `create tunnel`.
pub struct CreateTunnelArgs {
    /// Network to join (may be left out when the config has one network).
    pub network: Option<String>,
    /// Local name of the tunnel (generated when left out).
    pub name: Option<String>,
    /// A static IP for the tunnel.
    pub static_ip: Option<IpAddrPair>,
}

/// `delete`: a network or a tunnel.
pub struct DeleteCommand {
    pub subcommand: DeleteSubcommands,
}

/// What `delete` removes.
pub enum DeleteSubcommands {
    Network(DeleteNetworkArgs),
    Tunnel(DeleteTunnelArgs),
}

/// Options of `delete network`.
pub struct DeleteNetworkArgs {
    pub name: String,
    pub dry_run: bool,
}

/// Options of `delete tunnel`.
pub struct DeleteTunnelArgs {
    pub network: String,
    pub tunnel: String,
    pub dry_run: bool,
}

/// `list`: networks or tunnels.
pub struct ListCommand {
    pub subcommand: ListSubcommands,
}

/// What `list` lists.
pub enum ListSubcommands {
    Network(ListNetworksArgs),
    Tunnel(ListTunnelsArgs),
}

/// Options of `list networks`.
pub struct ListNetworksArgs {
    pub output: OutputFormat,
}

/// Options of `list tunnels`.
pub struct ListTunnelsArgs {
    /// Only tunnels of this network.
    pub network: Option<String>,
    pub output: OutputFormat,
}

/// Options of `connect`.
pub struct ConnectArgs {
    /// Network (may be left out when the config has one network).
    pub network: Option<String>,
    /// Tunnel (may be left out when the network has one tunnel).
    pub name: Option<String>,
}

/// Options of `disconnect`.
pub struct DisconnectArgs {
    pub network: Option<String>,
}

/// Options of `get-conf`.
pub struct GetConfArgs {
    pub network: Option<String>,
    pub tunnel: Option<String>,
    /// Write the configuration to this file instead of stdout.
    pub output: Option<String>,
}

/// Options of `patch-dns`.
pub struct PatchDnsArgs {
    pub network: Option<String>,
}

/// `config`: add, list or remove local entries.
pub struct ConfigCommand {
    pub subcommand: ConfigSubcommands,
}

/// What `config` does.
pub enum ConfigSubcommands {
    Add(ConfigAddCommand),
    List(ConfigListCommand),
    Remove(ConfigRemoveCommand),
}

/// `config add`.
pub struct ConfigAddCommand {
    pub subcommand: ConfigAddSubcommands,
}

/// What `config add` adds.
pub enum ConfigAddSubcommands {
    Network(ConfigAddNetworkArgs),
    Tunnel(ConfigAddTunnelArgs),
}

/// Options of `config add network`.
pub struct ConfigAddNetworkArgs {
    pub name: String,
    pub local_name: Option<String>,
}

/// Options of `config add tunnel`.
pub struct ConfigAddTunnelArgs {
    pub name: String,
    pub network: String,
    pub local_name: Option<String>,
}

/// `config list`.
pub struct ConfigListCommand {
    pub subcommand: ConfigListSubcommands,
}

/// What `config list` lists.
pub enum ConfigListSubcommands {
    Network(ConfigListNetworksArgs),
    Tunnel(ConfigListTunnelsArgs),
}

/// Options of `config list networks`.
pub struct ConfigListNetworksArgs {
    pub output: OutputFormat,
}

/// Options of `config list tunnels`.
pub struct ConfigListTunnelsArgs {
    pub network: Option<String>,
    pub output: OutputFormat,
}

/// `config remove`.
pub struct ConfigRemoveCommand {
    pub subcommand: ConfigRemoveSubcommands,
}

/// What `config remove` removes.
pub enum ConfigRemoveSubcommands {
    Network(ConfigRemoveNetworkArgs),
    Tunnel(ConfigRemoveTunnelArgs),
}

/// Options of `config remove network`.
pub struct ConfigRemoveNetworkArgs {
    pub name: String,
}

/// Options of `config remove tunnel`.
pub struct ConfigRemoveTunnelArgs {
    pub name: String,
    pub network: String,
}

/// How listings are printed.
#[derive(Clone, Copy, Debug, PartialEq, Eq, Structural)]
pub enum OutputFormat {
    Names,
    Table,
    TableWithHeaders,
    Json,
    JsonPretty,
    Yaml,
}

/// How log messages are filtered and shown.
pub struct LogSetup {
    /// Each message shows the module it comes from.
    pub show_module: bool,
    /// The messages of this module alone pass the filter (all when `None`).
    pub module: Option<&'static str>,
    /// Debug messages pass; otherwise informational ones and above.
    pub debug: bool,
}

/// The log setup of a level: normal shows the tool's informational
/// messages, verbose its debug messages, and trace every module's debug
/// messages with their module paths.
pub fn log_setup(level: LogLevel) -> (r: LogSetup)
    ensures
        r.show_module == (level == LogLevel::Trace),
        r.debug == (level != LogLevel::Normal),
        match r.module {
            Some(m) => level != LogLevel::Trace && m@ == "k8s_insider"@,
            None => level == LogLevel::Trace,
        },
{
    match level {
        LogLevel::Normal => LogSetup { show_module: false, module: Some("k8s_insider"), debug: false },
        LogLevel::Verbose => LogSetup { show_module: false, module: Some("k8s_insider"), debug: true },
        LogLevel::Trace => LogSetup { show_module: true, module: None, debug: true },
    }
}

} // verus!
