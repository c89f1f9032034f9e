use k8s_insider::cli::{InstallArgs, UninstallArgs};
use k8s_insider::commands::install::{
    plan_apply_release, plan_install, plan_uninstall, prepare_release, prepare_upgrade, trunc, DetectedParams,
    InstallAction, InstallError,
};
use k8s_insider::net::{IpNetValue, IpNetwork};

fn args(force: bool, upgrade: bool) -> InstallArgs {
    InstallArgs {
        kube_dns: None,
        service_cidr: None,
        service_domain: None,
        pod_cidr: None,
        no_crds: false,
        controller_image: "ctrl".to_string(),
        controller_image_tag: "1".to_string(),
        network_manager_image: "nm".to_string(),
        network_manager_image_tag: "2".to_string(),
        router_image: "router".to_string(),
        router_image_tag: "3".to_string(),
        dry_run: false,
        force,
        upgrade,
    }
}

fn detected() -> DetectedParams {
    DetectedParams {
        service_cidr: Some(IpNetValue::V4 { addr: 0x0a600000, prefix_len: 12 }),
        pod_cidr: Some(IpNetValue::V4 { addr: 0x0af40000, prefix_len: 16 }),
        kube_dns: Some(Some("10.96.0.10".to_string())),
        service_domain: Some(Some("cluster.local".to_string())),
    }
}

#[test]
fn install_decision() {
    assert_eq!(plan_install(false, &args(false, false), "ns").unwrap(), InstallAction::Install);
    assert_eq!(plan_install(true, &args(true, false), "ns").unwrap(), InstallAction::Install);
    assert_eq!(plan_install(true, &args(false, true), "ns").unwrap(), InstallAction::Upgrade);
    assert!(matches!(plan_install(true, &args(false, false), "ns"), Err(InstallError::AlreadyInstalled(n)) if n == "ns"));
}

#[test]
fn host_bits_are_cleared() {
    assert_eq!(
        trunc(IpNetValue::V4 { addr: 0x0a0b0c0d, prefix_len: 16 }),
        IpNetValue::V4 { addr: 0x0a0b0000, prefix_len: 16 }
    );
    assert_eq!(
        trunc(IpNetValue::V4 { addr: 0x0a0b0c0d, prefix_len: 0 }),
        IpNetValue::V4 { addr: 0, prefix_len: 0 }
    );
    assert_eq!(
        trunc(IpNetValue::V4 { addr: 0x0a0b0c0d, prefix_len: 32 }),
        IpNetValue::V4 { addr: 0x0a0b0c0d, prefix_len: 32 }
    );
    assert_eq!(
        trunc(IpNetValue::V6 { addr: u128::MAX, prefix_len: 64 }),
        IpNetValue::V6 { addr: u128::MAX << 64, prefix_len: 64 }
    );
}

#[test]
fn release_from_detected_parameters() {
    let r = prepare_release("ns".to_string(), &args(false, false), &detected()).unwrap();
    assert_eq!(r.namespace, "ns");
    assert_eq!(r.service_cidr, IpNetValue::V4 { addr: 0x0a600000, prefix_len: 12 });
    assert_eq!(r.kube_dns.as_deref(), Some("10.96.0.10"));
    assert_eq!(r.service_domain.as_deref(), Some("cluster.local"));
    assert_eq!(r.router_image_tag, "3");
}

#[test]
fn given_parameters_win_and_are_truncated() {
    let mut a = args(false, false);
    a.service_cidr = Some(IpNetwork::from_str("10.96.1.2/12").unwrap());
    a.kube_dns = Some("10.0.0.53".to_string());
    a.service_domain = Some("example.local".to_string());
    let none = DetectedParams { service_cidr: None, pod_cidr: Some(IpNetValue::V4 { addr: 1, prefix_len: 32 }), kube_dns: None, service_domain: None };
    let r = prepare_release("ns".to_string(), &a, &none).unwrap();
    assert_eq!(r.service_cidr, IpNetValue::V4 { addr: 0x0a600000, prefix_len: 12 });
    assert_eq!(r.kube_dns.as_deref(), Some("10.0.0.53"));
    assert_eq!(r.service_domain.as_deref(), Some("example.local"));
}

#[test]
fn release_errors() {
    let mut a = args(false, false);
    let mut d = detected();
    d.pod_cidr = None;
    assert!(matches!(prepare_release("ns".to_string(), &a, &d), Err(InstallError::AutodetectFailed)));
    a.kube_dns = Some("dns.local".to_string());
    assert!(matches!(prepare_release("ns".to_string(), &a, &d), Err(InstallError::InvalidKubeDns(t)) if t == "dns.local"));
}

#[test]
fn upgrade_replaces_images_only() {
    let current = prepare_release("ns".to_string(), &args(false, false), &detected()).unwrap();
    let mut a = args(false, true);
    a.controller_image_tag = "9".to_string();
    let r = prepare_upgrade(current, &a);
    assert_eq!(r.controller_image_tag, "9");
    assert_eq!(r.namespace, "ns");
    assert_eq!(r.pod_cidr, IpNetValue::V4 { addr: 0x0af40000, prefix_len: 16 });
}

#[test]
fn uninstall_plan() {
    let p = plan_uninstall(&UninstallArgs { delete_namespace: true, leave_crds: false, dry_run: true }, "ns");
    assert!(p.remove_crds);
    assert!(p.dry_run);
    assert_eq!(p.remove_namespace.as_deref(), Some("ns"));
    let q = plan_uninstall(&UninstallArgs { delete_namespace: false, leave_crds: true, dry_run: false }, "ns");
    assert!(!q.remove_crds);
    assert!(q.remove_namespace.is_none());
}

#[test]
fn truncation_is_idempotent() {
    for n in [
        IpNetValue::V4 { addr: 0xc0a80117, prefix_len: 20 },
        IpNetValue::V6 { addr: 0x1234_5678_9abc_def0_1234_5678_9abc_def0, prefix_len: 48 },
    ] {
        assert_eq!(trunc(trunc(n)), trunc(n));
    }
}

#[test]
fn applying_a_release_skips_crds_only_when_asked() {
    let mut a = args(false, false);
    let p = plan_apply_release(&a);
    assert!(p.apply_crds);
    assert!(!p.dry_run);
    a.no_crds = true;
    a.dry_run = true;
    let q = plan_apply_release(&a);
    assert!(!q.apply_crds);
    assert!(q.dry_run);
}
