use k8s_insider::commands::config_list::{config_list_networks, config_list_tunnels};
use k8s_insider::commands::list::{list_networks, list_tunnels};
use k8s_insider::config::network::{NetworkConfig, NetworkIdentifier};
use k8s_insider::config::tunnel::TunnelConfig;
use k8s_insider::config::InsiderConfig;
use k8s_insider::crd::{
    Network, NetworkSpec, NetworkState, NetworkStatus, ObjectMeta, Tunnel, TunnelSpec,
};
use k8s_insider::net::{IpNetwork, SocketAddress};
use k8s_insider::output::{TableOutputDisplay, TableOutputRow};
use k8s_insider::wireguard::keys::WgKey;

fn key() -> WgKey {
    WgKey::from_base64("AAECAwQFBgcICQoLDA0ODxAREhMUFRYXGBkaGxwdHh8=").unwrap()
}

fn config() -> InsiderConfig {
    let mut c = InsiderConfig::new();
    for (local, name) in [("b", "net-b"), ("a", "net-a")] {
        let mut n = NetworkConfig::from_identifier(NetworkIdentifier::new(name.to_string(), "ns".to_string(), "ctx".to_string()));
        n.try_add_tunnel("t1".to_string(), TunnelConfig::new(format!("{name}-1"), key())).unwrap();
        n.try_add_tunnel("t0".to_string(), TunnelConfig::new(format!("{name}-0"), key())).unwrap();
        c.try_add_network(local.to_string(), n).unwrap();
    }
    c
}

#[test]
fn configured_networks() {
    let c = config();
    let rows = config_list_networks(&c);
    assert_eq!(rows.len(), 2);
    assert_eq!(rows[0].get_row(), vec!["a", "ctx", "ns"]);
    assert_eq!(rows.print_names(), "a\nb\n");
    assert_eq!(rows.print_table_with_headers(), "NAME\tCONTEXT\tNAMESPACE\na   \tctx    \tns       \nb   \tctx    \tns       \n");
}

#[test]
fn configured_tunnels() {
    let c = config();
    let all: Vec<Vec<String>> = config_list_tunnels(None, &c).iter().map(|r| r.get_row()).collect();
    assert_eq!(
        all,
        vec![
            vec!["a", "t0", "net-a", "ctx", "ns", "net-a-0"],
            vec!["a", "t1", "net-a", "ctx", "ns", "net-a-1"],
            vec!["b", "t0", "net-b", "ctx", "ns", "net-b-0"],
            vec!["b", "t1", "net-b", "ctx", "ns", "net-b-1"],
        ]
    );
    let of_b: Vec<String> = config_list_tunnels(Some("b"), &c).iter().map(|r| r.get_name()).collect();
    assert_eq!(of_b, vec!["t0", "t1"]);
    assert!(config_list_tunnels(Some("zzz"), &c).is_empty());
}

#[test]
fn cluster_listings() {
    let networks = vec![
        Network {
            metadata: ObjectMeta { name: Some("dev".to_string()), namespace: None },
            spec: NetworkSpec { peer_cidr: IpNetwork::from_str("10.11.11.0/24").unwrap(), network_service: None, nat: None },
            status: Some(NetworkStatus {
                state: NetworkState::Deployed,
                server_public_key: None,
                dns: None,
                endpoints: Some(vec![
                    SocketAddress::from_str("1.2.3.4:1").unwrap(),
                    SocketAddress::from_str("5.6.7.8:2").unwrap(),
                ]),
                allowed_ips: None,
                service_domain: None,
            }),
        },
        Network {
            metadata: ObjectMeta { name: None, namespace: None },
            spec: NetworkSpec { peer_cidr: IpNetwork::from_str("10.0.0.0/8").unwrap(), network_service: None, nat: None },
            status: None,
        },
    ];
    let rows = list_networks(&networks);
    assert_eq!(rows[0].get_row(), vec!["dev", "10.11.11.0/24", "-", "-", "-", "1.2.3.4:1,5.6.7.8:2", "-", "Deployed"]);
    assert_eq!(rows[1].get_row(), vec!["-", "10.0.0.0/8", "-", "-", "-", "-", "-", "-"]);

    let tunnels = vec![
        Tunnel {
            metadata: ObjectMeta { name: Some("t1".to_string()), namespace: None },
            spec: TunnelSpec { network: "dev".to_string(), peer_public_key: "pk".to_string(), preshared_key: "psk".to_string(), static_ip: None },
            status: None,
        },
        Tunnel {
            metadata: ObjectMeta { name: Some("t2".to_string()), namespace: None },
            spec: TunnelSpec { network: "prod".to_string(), peer_public_key: "pk2".to_string(), preshared_key: "psk2".to_string(), static_ip: None },
            status: None,
        },
    ];
    assert_eq!(list_tunnels(&tunnels, None).len(), 2);
    let dev = list_tunnels(&tunnels, Some("dev"));
    assert_eq!(dev.len(), 1);
    assert_eq!(dev[0].get_row(), vec!["dev", "t1", "pk", "psk", "-", "-", "-"]);
}
