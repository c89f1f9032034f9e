use k8s_insider::cli::{
    ConfigAddNetworkArgs, ConfigAddTunnelArgs, ConfigRemoveNetworkArgs, ConfigRemoveTunnelArgs,
    GlobalArgs,
};
use k8s_insider::commands::config_commands::{
    config_add_network, config_add_tunnel, config_remove_network, config_remove_tunnel,
    delete_network_request, delete_tunnel_entry, connection_target, get_network_or_default, get_tunnel_or_default,
    try_get_tunnel_config,
};
use k8s_insider::config::network::{NetworkConfig, NetworkIdentifier};
use k8s_insider::config::tunnel::TunnelConfig;
use k8s_insider::config::{ConfigError, InsiderConfig};
use k8s_insider::wireguard::keys::WgKey;

fn key(c: char) -> WgKey {
    let text = format!("{}A=", c.to_string().repeat(42));
    WgKey::from_base64(&text).unwrap()
}

fn network(name: &str, namespace: &str, context: &str) -> NetworkConfig {
    NetworkConfig::from_identifier(NetworkIdentifier::new(
        name.to_string(),
        namespace.to_string(),
        context.to_string(),
    ))
}

fn global(namespace: &str) -> GlobalArgs {
    GlobalArgs {
        namespace: namespace.to_string(),
        config: None,
        kube_config: None,
        kube_context: None,
        verbose_logging: false,
        trace_logging: false,
    }
}

#[test]
fn add_then_get_network() {
    let mut config = InsiderConfig::new();
    config.try_add_network("dev".to_string(), network("dev", "ns", "ctx")).unwrap();
    let (name, net) = config.try_get_network("dev").unwrap();
    assert_eq!(name, "dev");
    assert_eq!(net.id.namespace, "ns");
    assert_eq!(net.id.context, "ctx");
    assert!(config.try_get_network("prod").is_none());
}

#[test]
fn add_existing_network_is_refused() {
    let mut config = InsiderConfig::new();
    config.try_add_network("dev".to_string(), network("dev", "ns", "ctx")).unwrap();
    let r = config.try_add_network("dev".to_string(), network("other", "ns", "ctx"));
    assert!(matches!(r, Err(ConfigError::NetworkAlreadyPresent(n)) if n == "dev"));
    assert_eq!(config.try_get_network("dev").unwrap().1.id.name, "dev");
}

#[test]
fn add_then_remove_network_restores() {
    let mut config = InsiderConfig::new();
    config.try_add_network("a".to_string(), network("a", "ns", "ctx")).unwrap();
    config.try_add_network("b".to_string(), network("b", "ns", "ctx")).unwrap();
    let removed = config.try_remove_network("b").unwrap();
    assert_eq!(removed.id.name, "b");
    let names: Vec<String> = config.list_networks().iter().map(|(n, _)| n.to_string()).collect();
    assert_eq!(names, vec!["a".to_string()]);
    assert!(matches!(config.try_remove_network("b"), Err(ConfigError::NetworkNotPresent(n)) if n == "b"));
}

#[test]
fn networks_are_listed_by_name() {
    let mut config = InsiderConfig::new();
    for n in ["zeta", "alpha", "mid"] {
        config.try_add_network(n.to_string(), network(n, "ns", "ctx")).unwrap();
    }
    let names: Vec<String> = config.list_networks().iter().map(|(n, _)| n.to_string()).collect();
    assert_eq!(names, vec!["alpha", "mid", "zeta"]);
}

#[test]
fn default_network_rules() {
    let mut config = InsiderConfig::new();
    assert!(matches!(config.try_get_default_network(), Ok(None)));
    assert!(matches!(get_network_or_default(&config, None), Err(ConfigError::NoNetworks)));
    config.try_add_network("a".to_string(), network("a", "ns", "ctx")).unwrap();
    assert_eq!(config.try_get_default_network().unwrap().unwrap().0, "a");
    assert_eq!(get_network_or_default(&config, None).unwrap().0, "a");
    config.try_add_network("b".to_string(), network("b", "ns", "ctx")).unwrap();
    assert!(matches!(config.try_get_default_network(), Err(ConfigError::MultipleNetworks)));
    assert!(matches!(get_network_or_default(&config, None), Err(ConfigError::MultipleNetworks)));
    assert_eq!(get_network_or_default(&config, Some("b")).unwrap().0, "b");
    assert!(matches!(get_network_or_default(&config, Some("c")), Err(ConfigError::NetworkNotPresent(n)) if n == "c"));
}

#[test]
fn generated_network_names_avoid_taken_ones() {
    let mut config = InsiderConfig::new();
    let entry = network("dev", "ns", "ctx");
    assert_eq!(config.generate_config_network_name(&entry), "dev");
    config.try_add_network("dev".to_string(), network("dev", "ns", "ctx")).unwrap();
    assert_eq!(config.generate_config_network_name(&entry), "dev-ctx");
    config.try_add_network("dev-ctx".to_string(), network("dev", "ns", "ctx")).unwrap();
    assert_eq!(config.generate_config_network_name(&entry), "dev-ctx0");
    config.try_add_network("dev-ctx0".to_string(), network("dev", "ns", "ctx")).unwrap();
    assert_eq!(config.generate_config_network_name(&entry), "dev-ctx1");
}

#[test]
fn generated_tunnel_names_count_up() {
    let mut net = network("dev", "ns", "ctx");
    assert_eq!(net.generate_config_tunnel_name(), "tun0");
    net.try_add_tunnel("tun0".to_string(), TunnelConfig::new("crd0".to_string(), key('A'))).unwrap();
    net.try_add_tunnel("tun1".to_string(), TunnelConfig::new("crd1".to_string(), key('B'))).unwrap();
    assert_eq!(net.generate_config_tunnel_name(), "tun2");
}

#[test]
fn tunnel_add_get_remove() {
    let mut net = network("dev", "ns", "ctx");
    assert!(matches!(net.try_get_default_tunnel(), Ok(None)));
    net.try_add_tunnel("t".to_string(), TunnelConfig::new("crd".to_string(), key('A'))).unwrap();
    assert_eq!(net.try_get_tunnel("t").unwrap().1.name, "crd");
    assert_eq!(net.try_get_default_tunnel().unwrap().unwrap().0, "t");
    assert!(matches!(
        net.try_add_tunnel("t".to_string(), TunnelConfig::new("x".to_string(), key('B'))),
        Err(ConfigError::TunnelAlreadyPresent(n)) if n == "t"
    ));
    net.try_add_tunnel("u".to_string(), TunnelConfig::new("crd2".to_string(), key('B'))).unwrap();
    assert!(matches!(net.try_get_default_tunnel(), Err(ConfigError::MultipleTunnels)));
    let t = net.try_remove_tunnel("t").unwrap();
    assert_eq!(t.name, "crd");
    assert!(matches!(net.try_remove_tunnel("t"), Err(ConfigError::TunnelNotPresent(n)) if n == "t"));
    let names: Vec<String> = net.list_tunnels().iter().map(|(n, _)| n.to_string()).collect();
    assert_eq!(names, vec!["u"]);
}

#[test]
fn stored_private_key_is_read_back() {
    let t = TunnelConfig::new("crd".to_string(), key('C'));
    assert_eq!(t.try_get_wgkey().unwrap().to_base64(), format!("{}A=", "C".repeat(42)));
    let bad = TunnelConfig { name: "crd".to_string(), private_key: "not a key".to_string() };
    assert!(bad.try_get_wgkey().is_err());
}

#[test]
fn tunnel_selection() {
    let mut net = network("dev", "ns", "ctx");
    assert!(matches!(try_get_tunnel_config(None, &net), Ok(None)));
    assert!(matches!(get_tunnel_or_default(&net, None), Err(ConfigError::NoTunnels)));
    net.try_add_tunnel("t".to_string(), TunnelConfig::new("crd".to_string(), key('A'))).unwrap();
    assert_eq!(try_get_tunnel_config(Some("t"), &net).unwrap().unwrap().0, "t");
    assert!(matches!(try_get_tunnel_config(Some("x"), &net), Err(ConfigError::TunnelNotPresent(n)) if n == "x"));
    assert_eq!(get_tunnel_or_default(&net, None).unwrap().0, "t");
}

#[test]
fn config_add_network_uses_context_and_namespace() {
    let mut config = InsiderConfig::new();
    let args = ConfigAddNetworkArgs { name: "dev".to_string(), local_name: Some("local".to_string()) };
    config_add_network(&mut config, &global("space"), args, "current").unwrap();
    let (_, net) = config.try_get_network("local").unwrap();
    assert_eq!(net.id.name, "dev");
    assert_eq!(net.id.namespace, "space");
    assert_eq!(net.id.context, "current");
    let named = ConfigAddNetworkArgs { name: "dev".to_string(), local_name: Some("local".to_string()) };
    assert!(matches!(
        config_add_network(&mut config, &global("space"), named, "current"),
        Err(ConfigError::NetworkAlreadyPresent(n)) if n == "local"
    ));
}

#[test]
fn config_add_network_generates_local_names() {
    let mut config = InsiderConfig::new();
    let args = |name: &str| ConfigAddNetworkArgs { name: name.to_string(), local_name: None };
    config_add_network(&mut config, &global("space"), args("dev"), "current").unwrap();
    assert_eq!(config.try_get_network("dev").unwrap().1.id.name, "dev");
    config_add_network(&mut config, &global("space"), args("dev"), "current").unwrap();
    assert_eq!(config.try_get_network("dev-current").unwrap().1.id.name, "dev");
    config_add_network(&mut config, &global("space"), args("dev"), "current").unwrap();
    assert_eq!(config.try_get_network("dev-current0").unwrap().1.id.name, "dev");
    config_add_network(&mut config, &global("space"), args("dev"), "current").unwrap();
    assert_eq!(config.try_get_network("dev-current1").unwrap().1.id.context, "current");
}

#[test]
fn config_add_and_remove_tunnel() {
    let mut config = InsiderConfig::new();
    let args = ConfigAddTunnelArgs { name: "crd".to_string(), network: "dev".to_string(), local_name: None };
    assert!(matches!(config_add_tunnel(&mut config, args, &key('A')), Err(ConfigError::NetworkNotPresent(n)) if n == "dev"));
    config.try_add_network("dev".to_string(), network("dev", "ns", "ctx")).unwrap();
    let args = ConfigAddTunnelArgs { name: "crd".to_string(), network: "dev".to_string(), local_name: None };
    config_add_tunnel(&mut config, args, &key('A')).unwrap();
    let (_, net) = config.try_get_network("dev").unwrap();
    assert_eq!(net.try_get_tunnel("tun0").unwrap().1.name, "crd");
    let remove = ConfigRemoveTunnelArgs { name: "tun0".to_string(), network: "dev".to_string() };
    assert!(config_remove_tunnel(&mut config, &remove).unwrap());
    assert!(!config_remove_tunnel(&mut config, &remove).unwrap());
    let remove_net = ConfigRemoveNetworkArgs { name: "dev".to_string() };
    assert!(config_remove_network(&mut config, &remove_net));
    assert!(!config_remove_network(&mut config, &remove_net));
}

#[test]
fn delete_tunnel_entry_cases() {
    let mut config = InsiderConfig::new();
    assert!(matches!(delete_tunnel_entry(&mut config, "dev", "t"), Err(ConfigError::NetworkNotPresent(n)) if n == "dev"));
    let mut net = network("dev", "ns", "ctx");
    net.try_add_tunnel("t".to_string(), TunnelConfig::new("crd".to_string(), key('A'))).unwrap();
    config.try_add_network("dev".to_string(), net).unwrap();
    assert!(matches!(delete_tunnel_entry(&mut config, "dev", "x"), Err(ConfigError::TunnelNotPresent(n)) if n == "x"));
    let (t, id) = delete_tunnel_entry(&mut config, "dev", "t").unwrap();
    assert_eq!(t.name, "crd");
    assert_eq!(id.namespace, "ns");
    assert!(config.try_get_network("dev").unwrap().1.try_get_tunnel("t").is_none());
}

#[test]
fn connection_target_cases() {
    let mut config = InsiderConfig::new();
    assert!(matches!(connection_target(&config, None), Ok(None)));
    assert!(matches!(connection_target(&config, Some("dev")), Err(ConfigError::NetworkNotPresent(n)) if n == "dev"));
    config.try_add_network("dev".to_string(), network("net", "ns", "ctx")).unwrap();
    let id = connection_target(&config, Some("dev")).unwrap().unwrap();
    assert_eq!(id.name, "net");
}

#[test]
fn network_identifiers_compare_by_all_parts() {
    let a = NetworkIdentifier::new("n".to_string(), "ns".to_string(), "c".to_string());
    let b = NetworkIdentifier::new("n".to_string(), "ns".to_string(), "c".to_string());
    let c = NetworkIdentifier::new("n".to_string(), "ns".to_string(), "other".to_string());
    assert!(a.same_as(&b));
    assert!(!a.same_as(&c));
}

#[test]
fn deleting_a_network_leaves_the_config_first() {
    let mut config = InsiderConfig::new();
    assert!(matches!(
        delete_network_request(&mut config, "dev", "space"),
        Err(ConfigError::NetworkNotPresent(n)) if n == "dev"
    ));
    config.try_add_network("dev".to_string(), network("net", "ns", "ctx")).unwrap();
    let q = delete_network_request(&mut config, "dev", "space").unwrap();
    assert_eq!(q.context, "ctx");
    assert_eq!(q.name, "dev");
    assert_eq!(q.namespace, "space");
    assert!(config.try_get_network("dev").is_none());
}
