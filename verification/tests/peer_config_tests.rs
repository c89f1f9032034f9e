use k8s_insider::config::network::NetworkIdentifier;
use k8s_insider::config::tunnel::{TunnelConfig, TunnelIdentifier};
use k8s_insider::crd::{
    Network, NetworkSpec, NetworkState, NetworkStatus, ObjectMeta, Tunnel, TunnelSpec,
    TunnelState, TunnelStatus,
};
use k8s_insider::net::{IpAddrPair, IpNetwork, SocketAddress};
use k8s_insider::wireguard::connection::{
    check_network_availability, check_tunnel_availability, get_peer_config,
    network_await_condition, tunnel_await_condition, AvailabilityError, PeerConfigError,
};
use k8s_insider::wireguard::keys::WgKey;
use k8s_insider::wireguard::meta::InsiderPeerMeta;
use k8s_insider::wireguard::peer_config::{
    PeerConfigField, PeerConfigSection, WireguardParseError, WireguardPeerConfig,
};
use k8s_insider::wireguard::WireguardError;

const K1: &str = "AAECAwQFBgcICQoLDA0ODxAREhMUFRYXGBkaGxwdHh8=";
const K2: &str = "//////////////////////////////////////////8=";
const K3: &str = "BBBBBBBBBBBBBBBBBBBBBBBBBBBBBBBBBBBBBBBBBBA=";

fn key(t: &str) -> WgKey {
    WgKey::from_base64(t).unwrap()
}

fn sample(dns: Option<&str>) -> WireguardPeerConfig {
    WireguardPeerConfig {
        address: IpAddrPair::from_str("10.11.11.2").unwrap(),
        dns: dns.map(|d| IpAddrPair::from_str(d).unwrap()),
        peer_private_key: key(K1),
        server_public_key: key(K2),
        preshared_key: key(K3),
        server_endpoint: SocketAddress::from_str("1.2.3.4:31111").unwrap(),
        allowed_ips: vec![
            IpNetwork::from_str("10.0.0.0/16").unwrap(),
            IpNetwork::from_str("10.96.0.0/12").unwrap(),
        ],
    }
}

fn expected_text(dns_line: &str) -> String {
    format!(
        "[Interface]\nAddress = 10.11.11.2\nPrivateKey = {K1}\n{dns_line}\n\n[Peer]\nPublicKey = {K2}\nPresharedKey = {K3}\nEndpoint = 1.2.3.4:31111\nAllowedIPs = 10.0.0.0/16,10.96.0.0/12"
    )
}

#[test]
fn configuration_file_text() {
    assert_eq!(sample(Some("10.96.0.10")).generate_configuration_file(), expected_text("DNS = 10.96.0.10"));
    assert_eq!(sample(None).generate_configuration_file(), expected_text(""));
}

#[test]
fn written_file_reads_back() {
    for dns in [Some("10.96.0.10"), None] {
        let c = sample(dns);
        let text = c.generate_configuration_file();
        let back = WireguardPeerConfig::from_ini_text(&text).unwrap();
        assert_eq!(back.address.to_string(), "10.11.11.2");
        assert_eq!(back.dns.as_ref().map(|d| d.to_string()), dns.map(|d| d.to_string()));
        assert_eq!(back.peer_private_key.to_base64(), K1);
        assert_eq!(back.server_public_key.to_base64(), K2);
        assert_eq!(back.preshared_key.to_base64(), K3);
        assert_eq!(back.server_endpoint.to_string(), "1.2.3.4:31111");
        let ips: Vec<String> = back.allowed_ips.iter().map(|n| n.to_string()).collect();
        assert_eq!(ips, vec!["10.0.0.0/16", "10.96.0.0/12"]);
        assert_eq!(back.generate_configuration_file(), text);
    }
}

#[test]
fn parse_errors() {
    assert!(matches!(
        WireguardPeerConfig::from_ini_text("[Interface\nAddress = 1"),
        Err(WireguardParseError::IniError(_))
    ));
    assert!(matches!(
        WireguardPeerConfig::from_ini_text("[Peer]\nPublicKey = x"),
        Err(WireguardParseError::MissingSection(PeerConfigSection::Interface))
    ));
    let no_address = expected_text("").replace("Address = 10.11.11.2\n", "");
    assert!(matches!(
        WireguardPeerConfig::from_ini_text(&no_address),
        Err(WireguardParseError::MissingValue(PeerConfigField::InterfaceAddress))
    ));
    let bad_address = expected_text("").replace("10.11.11.2", "10.11.11.300");
    assert!(matches!(
        WireguardPeerConfig::from_ini_text(&bad_address),
        Err(WireguardParseError::IpPairParseError(PeerConfigField::InterfaceAddress))
    ));
    let bad_key = expected_text("").replace(K2, "short");
    assert!(matches!(
        WireguardPeerConfig::from_ini_text(&bad_key),
        Err(WireguardParseError::WgKeyParseError(PeerConfigField::PeerPublicKey))
    ));
    let bad_endpoint = expected_text("").replace("1.2.3.4:31111", "1.2.3.4");
    assert!(matches!(
        WireguardPeerConfig::from_ini_text(&bad_endpoint),
        Err(WireguardParseError::SocketAddrParseError(PeerConfigField::PeerEndpoint))
    ));
    let bad_ips = expected_text("").replace("10.96.0.0/12", "10.96.0.0/40");
    assert!(matches!(
        WireguardPeerConfig::from_ini_text(&bad_ips),
        Err(WireguardParseError::IpNetParseError(PeerConfigField::PeerAllowedIps))
    ));
}

fn network(state: NetworkState) -> Network {
    Network {
        metadata: ObjectMeta { name: Some("dev".to_string()), namespace: Some("ns".to_string()) },
        spec: NetworkSpec {
            peer_cidr: IpNetwork::from_str("10.11.11.0/24").unwrap(),
            network_service: None,
            nat: None,
        },
        status: Some(NetworkStatus {
            state,
            server_public_key: Some(K2.to_string()),
            dns: Some(IpAddrPair::from_str("10.96.0.10").unwrap()),
            endpoints: Some(vec![SocketAddress::from_str("1.2.3.4:31111").unwrap()]),
            allowed_ips: Some(vec![
                IpNetwork::from_str("10.0.0.0/16").unwrap(),
                IpNetwork::from_str("10.96.0.0/12").unwrap(),
            ]),
            service_domain: Some("cluster.local".to_string()),
        }),
    }
}

fn tunnel(state: TunnelState) -> Tunnel {
    Tunnel {
        metadata: ObjectMeta { name: Some("dev-abc".to_string()), namespace: Some("ns".to_string()) },
        spec: TunnelSpec {
            network: "dev".to_string(),
            peer_public_key: K1.to_string(),
            preshared_key: K3.to_string(),
            static_ip: None,
        },
        status: Some(TunnelStatus { state, address: Some(IpAddrPair::from_str("10.11.11.2").unwrap()) }),
    }
}

#[test]
fn configuration_from_resources() {
    let c = WireguardPeerConfig::from_crd(key(K1), &network(NetworkState::Deployed), &tunnel(TunnelState::Configured))
        .ok()
        .unwrap();
    assert_eq!(c.generate_configuration_file(), expected_text("DNS = 10.96.0.10"));
    assert!(matches!(
        WireguardPeerConfig::from_crd(key(K1), &network(NetworkState::Created), &tunnel(TunnelState::Configured)),
        Err(WireguardError::NetworkInvalidState(NetworkState::Created))
    ));
    assert!(matches!(
        WireguardPeerConfig::from_crd(key(K1), &network(NetworkState::Deployed), &tunnel(TunnelState::Created)),
        Err(WireguardError::TunnelInvalidState(TunnelState::Created))
    ));
    let mut no_endpoint = network(NetworkState::Deployed);
    no_endpoint.status.as_mut().unwrap().endpoints = Some(vec![]);
    assert!(matches!(
        WireguardPeerConfig::from_crd(key(K1), &no_endpoint, &tunnel(TunnelState::Connected)),
        Err(WireguardError::NetworkMissingEndpoint)
    ));
    let mut bad_server_key = network(NetworkState::Deployed);
    bad_server_key.status.as_mut().unwrap().server_public_key = Some("x".to_string());
    assert!(matches!(
        WireguardPeerConfig::from_crd(key(K1), &bad_server_key, &tunnel(TunnelState::Connected)),
        Err(WireguardError::NetworkInvalidServerPublicKey)
    ));
    let mut no_address = tunnel(TunnelState::Connected);
    no_address.status.as_mut().unwrap().address = None;
    assert!(matches!(
        WireguardPeerConfig::from_crd(key(K1), &network(NetworkState::Deployed), &no_address),
        Err(WireguardError::AddressNotAssigned)
    ));
}

#[test]
fn peer_config_needs_a_valid_stored_key() {
    let good = TunnelConfig { name: "dev-abc".to_string(), private_key: K1.to_string() };
    assert!(get_peer_config(&good, &network(NetworkState::Deployed), &tunnel(TunnelState::Connected)).is_ok());
    let bad = TunnelConfig { name: "dev-abc".to_string(), private_key: "x".to_string() };
    assert!(matches!(
        get_peer_config(&bad, &network(NetworkState::Deployed), &tunnel(TunnelState::Connected)),
        Err(PeerConfigError::InvalidConfigKey(n)) if n == "dev-abc"
    ));
}

#[test]
fn availability() {
    assert!(tunnel_await_condition(None));
    assert!(!tunnel_await_condition(Some(&tunnel(TunnelState::Created))));
    assert!(tunnel_await_condition(Some(&tunnel(TunnelState::Connected))));
    assert!(tunnel_await_condition(Some(&tunnel(TunnelState::Failed))));
    assert!(network_await_condition(Some(&network(NetworkState::Deployed))));
    assert!(!network_await_condition(Some(&network(NetworkState::Created))));
    assert!(check_tunnel_availability(Some(&tunnel(TunnelState::Configured))).is_ok());
    assert!(matches!(check_tunnel_availability(None), Err(AvailabilityError::TunnelNotFound)));
    assert!(matches!(check_tunnel_availability(Some(&tunnel(TunnelState::Created))), Err(AvailabilityError::TunnelTimedOut)));
    assert!(matches!(
        check_tunnel_availability(Some(&tunnel(TunnelState::Closed))),
        Err(AvailabilityError::TunnelInvalidState(Some(TunnelState::Closed)))
    ));
    assert!(check_network_availability(Some(&network(NetworkState::Deployed))).is_ok());
    assert!(matches!(check_network_availability(None), Err(AvailabilityError::NetworkNotFound)));
}

#[test]
fn metadata_of_a_new_connection() {
    let id = TunnelIdentifier {
        network: NetworkIdentifier::new("dev".to_string(), "ns".to_string(), "ctx".to_string()),
        name: "t".to_string(),
    };
    let m = InsiderPeerMeta::from_crd(&id, &network(NetworkState::Deployed)).ok().unwrap();
    assert_eq!(m.cluster_domain.as_deref(), Some("cluster.local"));
    assert!(!m.dns_patched);
    assert!(matches!(
        InsiderPeerMeta::from_crd(&id, &network(NetworkState::Failed)),
        Err(WireguardError::NetworkInvalidState(NetworkState::Failed))
    ));
}

#[test]
fn configuration_without_allowed_ips_does_not_read_back() {
    let mut c = sample(None);
    c.allowed_ips = Vec::new();
    let text = c.generate_configuration_file();
    assert!(text.ends_with("AllowedIPs = "));
    assert!(matches!(
        WireguardPeerConfig::from_ini_text(&text),
        Err(WireguardParseError::IpNetParseError(PeerConfigField::PeerAllowedIps))
    ));
}

#[test]
fn section_names_and_field_labels() {
    assert_eq!(PeerConfigSection::Interface.name(), "Interface");
    assert_eq!(PeerConfigSection::Peer.name(), "Peer");
    assert_eq!(PeerConfigField::InterfaceAddress.label(), "Interface:Address");
    assert_eq!(PeerConfigField::InterfacePrivateKey.label(), "Interface:PrivateKey");
    assert_eq!(PeerConfigField::InterfaceDns.label(), "Interface:DNS");
    assert_eq!(PeerConfigField::PeerPublicKey.label(), "Peer:PublicKey");
    assert_eq!(PeerConfigField::PeerPresharedKey.label(), "Peer:PresharedKey");
    assert_eq!(PeerConfigField::PeerEndpoint.label(), "Peer:Endpoint");
    assert_eq!(PeerConfigField::PeerAllowedIps.label(), "Peer:AllowedIPs");
}
