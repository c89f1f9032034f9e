use k8s_insider::config::network::NetworkIdentifier;
use k8s_insider::config::tunnel::TunnelIdentifier;
use k8s_insider::net::{IpAddrPair, IpNetwork, SocketAddress};
use k8s_insider::wireguard::connection_manager::{
    plan_dns_patch, plan_dns_unpatch, ConnectionError, ConnectionManager, ConnectionPlan,
    DnsPatch, TargetOs, TunnelInfo,
};
use k8s_insider::wireguard::keys::WgKey;
use k8s_insider::wireguard::meta::InsiderPeerMeta;
use k8s_insider::wireguard::peer_config::WireguardPeerConfig;

fn net(name: &str) -> NetworkIdentifier {
    NetworkIdentifier::new(name.to_string(), "ns".to_string(), "ctx".to_string())
}

fn tunnel(network: &str, name: &str) -> TunnelIdentifier {
    TunnelIdentifier::from_network_identifier(net(network), name.to_string())
}

fn info(network: &str, name: &str, conf: &str) -> TunnelInfo {
    TunnelInfo {
        tunnel: tunnel(network, name),
        config_path: conf.to_string(),
        meta_path: conf.replace(".conf", ".meta"),
    }
}

#[test]
fn planning_new_connections() {
    let mut m = ConnectionManager::new("/t".to_string());
    match m.plan_connection(&tunnel("dev", "a")).unwrap() {
        ConnectionPlan::Create { config_path, meta_path } => {
            assert_eq!(config_path, "/t/insider0.conf");
            assert_eq!(meta_path, "/t/insider0.meta");
        }
        ConnectionPlan::Reconnect { .. } => panic!("expected a new connection"),
    }
    m.record_connection(info("dev", "a", "/t/insider0.conf"));
    match m.plan_connection(&tunnel("dev", "a")).unwrap() {
        ConnectionPlan::Reconnect { config_path } => assert_eq!(config_path, "/t/insider0.conf"),
        ConnectionPlan::Create { .. } => panic!("expected a reconnection"),
    }
    assert!(matches!(m.plan_connection(&tunnel("dev", "b")), Err(ConnectionError::AlreadyConnected(n)) if n == "dev"));
    match m.plan_connection(&tunnel("prod", "a")).unwrap() {
        ConnectionPlan::Create { config_path, .. } => assert_eq!(config_path, "/t/insider1.conf"),
        ConnectionPlan::Reconnect { .. } => panic!("expected a new connection"),
    }
}

#[test]
fn record_then_remove_restores() {
    let mut m = ConnectionManager::new("/t".to_string());
    m.record_connection(info("dev", "a", "/t/insider0.conf"));
    m.record_connection(info("prod", "b", "/t/insider1.conf"));
    assert_eq!(m.len(), 2);
    let removed = m.remove_connection(&net("prod")).unwrap();
    assert_eq!(removed.config_path, "/t/insider1.conf");
    assert_eq!(m.len(), 1);
    assert!(m.find_connection(&net("prod")).is_none());
    assert!(matches!(m.remove_connection(&net("prod")), Err(ConnectionError::NotConnected(n)) if n == "prod"));
    let (c, meta) = m.connection_paths(&net("dev")).unwrap();
    assert_eq!(c, "/t/insider0.conf");
    assert_eq!(meta, "/t/insider0.meta");
}

#[test]
fn single_connection_rules() {
    let mut m = ConnectionManager::new("/t".to_string());
    assert!(matches!(m.take_single_connection(), Err(ConnectionError::NoConnections)));
    m.add_loaded(info("dev", "a", "/t/insider0.conf"));
    m.add_loaded(info("dev", "b", "/t/insider5.conf"));
    assert_eq!(m.len(), 1);
    m.add_loaded(info("prod", "c", "/t/insider1.conf"));
    assert!(matches!(m.take_single_connection(), Err(ConnectionError::MultipleConnections)));
    m.remove_connection(&net("prod")).unwrap();
    let only = m.take_single_connection().unwrap();
    assert_eq!(only.config_path, "/t/insider5.conf");
    assert_eq!(m.len(), 0);
}

fn peer(dns: bool) -> WireguardPeerConfig {
    let k = WgKey::from_base64("AAECAwQFBgcICQoLDA0ODxAREhMUFRYXGBkaGxwdHh8=").unwrap();
    WireguardPeerConfig {
        address: IpAddrPair::from_str("10.11.11.2").unwrap(),
        dns: if dns { Some(IpAddrPair::from_str("10.96.0.10").unwrap()) } else { None },
        peer_private_key: k.duplicate(),
        server_public_key: k.duplicate(),
        preshared_key: k,
        server_endpoint: SocketAddress::from_str("1.2.3.4:1").unwrap(),
        allowed_ips: vec![IpNetwork::from_str("10.0.0.0/8").unwrap()],
    }
}

fn meta(domain: Option<&str>, patched: bool) -> InsiderPeerMeta {
    InsiderPeerMeta { tunnel: tunnel("dev", "a"), cluster_domain: domain.map(|d| d.to_string()), dns_patched: patched }
}

#[test]
fn dns_patching_plans() {
    match plan_dns_patch(&meta(Some("cluster.local"), false), &peer(true), "/t/insider0.conf", TargetOs::Linux).unwrap() {
        DnsPatch::Resolvectl { interface_name, domain } => {
            assert_eq!(interface_name, "insider0");
            assert_eq!(domain, "cluster.local");
        }
        DnsPatch::NrptRule { .. } => panic!("expected resolvectl"),
    }
    match plan_dns_patch(&meta(Some("cluster.local"), false), &peer(true), "x", TargetOs::Windows).unwrap() {
        DnsPatch::NrptRule { dns, domain } => {
            assert_eq!(dns, "10.96.0.10");
            assert_eq!(domain, "cluster.local");
        }
        DnsPatch::Resolvectl { .. } => panic!("expected an NRPT rule"),
    }
    assert!(matches!(plan_dns_patch(&meta(None, false), &peer(true), "x", TargetOs::Windows), Err(ConnectionError::MissingClusterDomain)));
    assert!(matches!(plan_dns_patch(&meta(Some("c"), false), &peer(false), "x", TargetOs::Windows), Err(ConnectionError::MissingDns)));
    assert!(matches!(plan_dns_patch(&meta(Some("c"), false), &peer(true), "x", TargetOs::Other), Err(ConnectionError::UnsupportedOs)));
    assert_eq!(
        plan_dns_unpatch(&meta(Some("cluster.local"), true), &peer(true)),
        Some(("10.96.0.10".to_string(), "cluster.local".to_string()))
    );
    assert_eq!(plan_dns_unpatch(&meta(Some("cluster.local"), false), &peer(true)), None);
    assert_eq!(plan_dns_unpatch(&meta(None, true), &peer(true)), None);
}

#[test]
fn the_single_connection_is_the_default_target() {
    let mut m = ConnectionManager::new("/t".to_string());
    assert!(matches!(m.single_connection_paths(), Err(ConnectionError::NoConnections)));
    m.record_connection(info("dev", "a", "/t/insider0.conf"));
    let (c, meta) = m.single_connection_paths().unwrap();
    assert_eq!(c, "/t/insider0.conf");
    assert_eq!(meta, "/t/insider0.meta");
    m.record_connection(info("prod", "b", "/t/insider1.conf"));
    assert!(matches!(m.single_connection_paths(), Err(ConnectionError::MultipleConnections)));
}
