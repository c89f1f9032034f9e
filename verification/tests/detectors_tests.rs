use k8s_insider::formats::FieldError;
use k8s_insider::name_map::NameMap;
use k8s_insider::tool::detectors::{
    cni_cidr, detect_cluster_domain, detect_pod_cidr, get_cluster_configmaps, try_get_cilium_cidr,
    try_get_flannel_cidr, Cni, ConfigMap, DetectError,
};

fn configmap(name: &str, data: &[(&str, &str)]) -> ConfigMap {
    let mut m = NameMap::new();
    for (k, v) in data {
        m.insert_new(k.to_string(), v.to_string());
    }
    ConfigMap { name: Some(name.to_string()), data: Some(m) }
}

#[test]
fn cilium_and_flannel() {
    let cilium = configmap("cilium-config", &[("cluster-pool-ipv4-cidr", "10.0.0.0/8")]);
    assert_eq!(try_get_cilium_cidr(&cilium).as_deref(), Some("10.0.0.0/8"));
    let flannel = configmap(
        "kube-flannel-cfg",
        &[("net-conf.json", r#"{"Network": "10.244.0.0/16", "Backend": {"Type": "vxlan"}}"#)],
    );
    assert_eq!(try_get_flannel_cidr(&flannel).as_deref(), Some("10.244.0.0/16"));
    let broken = configmap("kube-flannel-cfg", &[("net-conf.json", "{")]);
    assert_eq!(try_get_flannel_cidr(&broken), None);
    let no_data = ConfigMap { name: Some("cilium-config".to_string()), data: None };
    assert_eq!(try_get_cilium_cidr(&no_data), None);
    let c = cni_cidr(&flannel).unwrap();
    assert_eq!(c.cni, Cni::Flannel);
    assert!(cni_cidr(&configmap("other", &[("cluster-pool-ipv4-cidr", "1.0.0.0/8")])).is_none());
}

#[test]
fn pod_cidr_is_the_first_found() {
    let maps = vec![
        configmap("other", &[]),
        configmap("kube-flannel-cfg", &[("net-conf.json", r#"{"Network": "10.244.0.0/16"}"#)]),
        configmap("cilium-config", &[("cluster-pool-ipv4-cidr", "10.0.0.0/8")]),
    ];
    assert_eq!(get_cluster_configmaps(&maps).len(), 2);
    assert_eq!(detect_pod_cidr(&maps).unwrap(), "10.244.0.0/16");
    assert_eq!(detect_pod_cidr(&vec![configmap("other", &[])]), Err(DetectError::UnsupportedCni));
}

#[test]
fn cluster_domain_from_kubelet_config() {
    assert_eq!(detect_cluster_domain(None), Ok(None));
    let kubelet = configmap("kubelet-config", &[("kubelet", "apiVersion: v1\nclusterDomain: cluster.local\n")]);
    assert_eq!(detect_cluster_domain(Some(&kubelet)), Ok(Some("cluster.local".to_string())));
    let no_data = ConfigMap { name: Some("kubelet-config".to_string()), data: None };
    assert_eq!(detect_cluster_domain(Some(&no_data)), Err(DetectError::MissingData));
    let no_entry = configmap("kubelet-config", &[("other", "x")]);
    assert_eq!(detect_cluster_domain(Some(&no_entry)), Err(DetectError::MissingKubeletEntry));
    let missing = configmap("kubelet-config", &[("kubelet", "apiVersion: v1\n")]);
    assert_eq!(
        detect_cluster_domain(Some(&missing)),
        Err(DetectError::InvalidKubeletConfig(FieldError::MissingField))
    );
    let number = configmap("kubelet-config", &[("kubelet", "clusterDomain: 5\n")]);
    assert_eq!(
        detect_cluster_domain(Some(&number)),
        Err(DetectError::InvalidKubeletConfig(FieldError::NotAString))
    );
    let invalid = configmap("kubelet-config", &[("kubelet", "- a\n- b\n")]);
    assert_eq!(
        detect_cluster_domain(Some(&invalid)),
        Err(DetectError::InvalidKubeletConfig(FieldError::InvalidDocument))
    );
}
