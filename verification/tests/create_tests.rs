use k8s_insider::cli::{CreateNetworkArgs, ServiceType};
use k8s_insider::commands::create::{
    create_network_crd, create_tunnel_crd, plan_network_apply, write_network_config,
    write_tunnel_config, ApplyDecision, CreateNetworkError, WriteConfigError,
};
use k8s_insider::config::network::{NetworkConfig, NetworkIdentifier};
use k8s_insider::config::{ConfigError, InsiderConfig};
use k8s_insider::crd::NetworkService;
use k8s_insider::net::{IpAddrPair, IpNetwork};
use k8s_insider::wireguard::keys::WgKey;

fn args(service_type: ServiceType, external: Option<Vec<&str>>) -> CreateNetworkArgs {
    CreateNetworkArgs {
        name: "dev".to_string(),
        peer_cidr: IpNetwork::from_str("10.11.11.0/24").unwrap(),
        service_type,
        external_ip: external.map(|v| v.iter().map(|s| IpAddrPair::from_str(s).unwrap()).collect()),
        cluster_ip: Some(IpAddrPair::from_str("10.96.5.5").unwrap()),
        dry_run: false,
        force: false,
    }
}

#[test]
fn network_resources() {
    let n = create_network_crd("space".to_string(), &args(ServiceType::NodePort, Some(vec!["1.2.3.4"]))).unwrap();
    assert_eq!(n.metadata.name.as_deref(), Some("dev"));
    assert_eq!(n.metadata.namespace.as_deref(), Some("space"));
    assert_eq!(n.spec.peer_cidr.to_string(), "10.11.11.0/24");
    match n.spec.network_service {
        Some(NetworkService::NodePort { cluster_ip, predefined_ips }) => {
            assert_eq!(cluster_ip.unwrap().to_string(), "10.96.5.5");
            let ips: Vec<String> = predefined_ips.unwrap().iter().map(|i| i.to_string()).collect();
            assert_eq!(ips, vec!["1.2.3.4"]);
        }
        _ => panic!("expected a node port service"),
    }
    let none = create_network_crd("space".to_string(), &args(ServiceType::NoService, None)).unwrap();
    assert!(none.spec.network_service.is_none());
    assert!(matches!(
        create_network_crd("space".to_string(), &args(ServiceType::ExternalIp, None)),
        Err(CreateNetworkError::MissingExternalIp)
    ));
    let ext = create_network_crd("space".to_string(), &args(ServiceType::ExternalIp, Some(vec!["8.8.8.8"]))).unwrap();
    assert!(matches!(ext.spec.network_service, Some(NetworkService::ExternalIp { .. })));
}

#[test]
fn apply_decision() {
    assert_eq!(plan_network_apply(false, false), ApplyDecision::Create);
    assert_eq!(plan_network_apply(true, true), ApplyDecision::Update);
    assert_eq!(plan_network_apply(true, false), ApplyDecision::Skip);
}

#[test]
fn created_network_is_recorded_under_a_free_name() {
    let mut config = InsiderConfig::new();
    let crd = create_network_crd("space".to_string(), &args(ServiceType::NoService, None)).unwrap();
    assert_eq!(write_network_config(&crd, "ctx", &mut config).unwrap(), "dev");
    assert_eq!(write_network_config(&crd, "ctx", &mut config).unwrap(), "dev-ctx");
    assert_eq!(write_network_config(&crd, "ctx", &mut config).unwrap(), "dev-ctx0");
    let (_, n) = config.try_get_network("dev-ctx0").unwrap();
    assert_eq!(n.id.namespace, "space");
    assert_eq!(n.id.context, "ctx");
    let mut nameless = crd;
    nameless.metadata.name = None;
    assert!(matches!(write_network_config(&nameless, "ctx", &mut config), Err(WriteConfigError::MissingName)));
}

#[test]
fn created_tunnel_is_recorded() {
    let key = WgKey::from_base64("AAECAwQFBgcICQoLDA0ODxAREhMUFRYXGBkaGxwdHh8=").unwrap();
    let crd = create_tunnel_crd("dev", "space", &key, &key, None);
    let mut config = InsiderConfig::new();
    assert!(matches!(
        write_tunnel_config("dev", None, &crd, &key, &mut config),
        Err(WriteConfigError::Config(ConfigError::NetworkNotPresent(n))) if n == "dev"
    ));
    config
        .try_add_network(
            "dev".to_string(),
            NetworkConfig::from_identifier(NetworkIdentifier::new("dev".to_string(), "space".to_string(), "ctx".to_string())),
        )
        .unwrap();
    assert_eq!(write_tunnel_config("dev", None, &crd, &key, &mut config).unwrap(), "tun0");
    assert_eq!(write_tunnel_config("dev", Some("mine"), &crd, &key, &mut config).unwrap(), "mine");
    assert!(matches!(
        write_tunnel_config("dev", Some("mine"), &crd, &key, &mut config),
        Err(WriteConfigError::Config(ConfigError::TunnelAlreadyPresent(n))) if n == "mine"
    ));
    let (_, n) = config.try_get_network("dev").unwrap();
    let t = n.try_get_tunnel("tun0").unwrap().1;
    assert_eq!(Some(t.name.as_str()), crd.metadata.name.as_deref());
    assert_eq!(t.private_key, key.to_base64());
}
