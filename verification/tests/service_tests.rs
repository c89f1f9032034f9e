use k8s_insider::service::{
    get_first_node_port, get_first_port, get_service_accessible_address, Service,
    ServiceAddressError, ServicePort, ServiceSpec,
};

fn spec(ips: Option<Vec<&str>>, kind: Option<&str>, ports: Option<Vec<(i32, Option<i32>)>>) -> ServiceSpec {
    ServiceSpec {
        external_ips: ips.map(|v| v.iter().map(|s| s.to_string()).collect()),
        type_: kind.map(|s| s.to_string()),
        ports: ports.map(|v| v.into_iter().map(|(port, node_port)| ServicePort { port, node_port }).collect()),
    }
}

#[test]
fn external_address() {
    let s = Service { spec: Some(spec(Some(vec!["1.2.3.4", "5.6.7.8"]), Some("ClusterIP"), Some(vec![(31111, None)]))) };
    assert_eq!(get_service_accessible_address(&s).unwrap(), "1.2.3.4:31111");
    let negative = Service { spec: Some(spec(Some(vec!["1.2.3.4"]), None, Some(vec![(-5, None)]))) };
    assert_eq!(get_service_accessible_address(&negative).unwrap(), "1.2.3.4:-5");
}

#[test]
fn address_errors() {
    assert!(matches!(get_service_accessible_address(&Service { spec: None }), Err(ServiceAddressError::MissingSpec)));
    let no_ports = Service { spec: Some(spec(Some(vec!["1.2.3.4"]), None, Some(vec![]))) };
    assert!(matches!(get_service_accessible_address(&no_ports), Err(ServiceAddressError::MissingPorts)));
    let no_type = Service { spec: Some(spec(None, None, None)) };
    assert!(matches!(get_service_accessible_address(&no_type), Err(ServiceAddressError::MissingType)));
    let cluster_ip = Service { spec: Some(spec(Some(vec![]), Some("ClusterIP"), None)) };
    assert!(matches!(get_service_accessible_address(&cluster_ip), Err(ServiceAddressError::UnsupportedType(t)) if t == "ClusterIP"));
}

#[test]
fn first_ports() {
    let s = spec(None, None, Some(vec![(80, Some(30080)), (443, None)]));
    assert_eq!(get_first_port(&s).unwrap(), 80);
    assert_eq!(get_first_node_port(&s).unwrap(), 30080);
    let no_node = spec(None, None, Some(vec![(80, None)]));
    assert!(matches!(get_first_node_port(&no_node), Err(ServiceAddressError::MissingNodePort)));
    assert!(matches!(get_first_port(&spec(None, None, None)), Err(ServiceAddressError::MissingPorts)));
}
