//! What `install` and `uninstall` do with the cluster: whether to install,
//! upgrade or refuse, and the release they deploy.
use vstd::prelude::*;
use crate::cli::{InstallArgs, UninstallArgs};
use crate::net::{check_ip_addr_text, ip_net_parse, is_ip_addr_text, IpNetValue, IpNetwork};
use crate::text::to_owned_string;

verus! {

/// The parameters of a k8s-insider release on a cluster.
pub struct ControllerRelease {
    pub namespace: String,
    pub service_cidr: IpNetValue,
    pub pod_cidr: IpNetValue,
    /// The cluster DNS service's address, as text.
    pub kube_dns: Option<String>,
    pub service_domain: Option<String>,
    pub controller_image_name: String,
    pub controller_image_tag: String,
    pub network_manager_image_name: String,
    pub network_manager_image_tag: String,
    pub router_image_name: String,
    pub router_image_tag: String,
}

/// Why `install` does not deploy.
#[derive(Debug)]
pub enum InstallError {
    /// A release is present in the namespace, and neither force nor upgrade was asked.
    AlreadyInstalled(String),
    /// A parameter that was not given could not be detected either.
    AutodetectFailed,
    /// The DNS service address given is no IP address.
    InvalidKubeDns(String),
}

/// What `install` deploys.
#[derive(Clone, Copy, Debug, PartialEq, Eq, Structural)]
pub enum InstallAction {
    /// A fresh release, its parameters given or detected.
    Install,
    /// The present release with the images given.
    Upgrade,
}

/// Whether to install, upgrade or refuse: without a release in the namespace
/// a new one is installed; with one, forcing installs anew, an upgrade
/// upgrades it, and anything else is refused.
pub fn plan_install(installed: bool, args: &InstallArgs, namespace: &str) -> (r: Result<
    InstallAction,
    InstallError,
>)
    ensures
        !installed ==> r == Ok::<InstallAction, InstallError>(InstallAction::Install),
        installed && args.force ==> r == Ok::<InstallAction, InstallError>(InstallAction::Install),
        installed && !args.force && args.upgrade ==> r == Ok::<InstallAction, InstallError>(
            InstallAction::Upgrade,
        ),
        installed && !args.force && !args.upgrade ==> (r matches Err(
            InstallError::AlreadyInstalled(n),
        ) && n@ == namespace@),
{
    if !installed {
        Ok(InstallAction::Install)
    } else if args.force {
        Ok(InstallAction::Install)
    } else if args.upgrade {
        Ok(InstallAction::Upgrade)
    } else {
        Err(InstallError::AlreadyInstalled(to_owned_string(namespace)))
    }
}

/// The mask of an IPv4 prefix length (all ones from 32 on).
pub open spec fn v4_mask(p: u8) -> u32 {
    if p == 0 {
        0
    } else if p >= 32 {
        0xffff_ffff
    } else {
        0xffff_ffffu32 << ((32 - p) as u32)
    }
}

/// The mask of an IPv6 prefix length (all ones from 128 on).
pub open spec fn v6_mask(p: u8) -> u128 {
    if p == 0 {
        0
    } else if p >= 128 {
        0xffff_ffff_ffff_ffff_ffff_ffff_ffff_ffff
    } else {
        0xffff_ffff_ffff_ffff_ffff_ffff_ffff_ffffu128 << ((128 - p) as u128)
    }
}

/// A network with the host bits of its address cleared.
pub open spec fn trunc_spec(n: IpNetValue) -> IpNetValue {
    match n {
        IpNetValue::V4 { addr, prefix_len } => IpNetValue::V4 {
            addr: addr & v4_mask(prefix_len),
            prefix_len,
        },
        IpNetValue::V6 { addr, prefix_len } => IpNetValue::V6 {
            addr: addr & v6_mask(prefix_len),
            prefix_len,
        },
    }
}

/// Clears the host bits of a network's address.
pub fn trunc(n: IpNetValue) -> (r: IpNetValue)
    ensures
        r == trunc_spec(n),
{
    match n {
        IpNetValue::V4 { addr, prefix_len } => {
            let m: u32 = if prefix_len == 0 {
                0
            } else if prefix_len >= 32 {
                0xffff_ffff
            } else {
                0xffff_ffffu32 << (32 - (prefix_len as u32))
            };
            IpNetValue::V4 { addr: addr & m, prefix_len }
        },
        IpNetValue::V6 { addr, prefix_len } => {
            let m: u128 = if prefix_len == 0 {
                0
            } else if prefix_len >= 128 {
                0xffff_ffff_ffff_ffff_ffff_ffff_ffff_ffff
            } else {
                0xffff_ffff_ffff_ffff_ffff_ffff_ffff_ffffu128 << (128 - (prefix_len as u128))
            };
            IpNetValue::V6 { addr: addr & m, prefix_len }
        },
    }
}

/// Clearing the host bits of a network a second time changes nothing: a
/// truncated CIDR is its own network address.
pub proof fn lemma_trunc_idempotent(n: IpNetValue)
    ensures
        trunc_spec(trunc_spec(n)) == trunc_spec(n),
{
    match n {
        IpNetValue::V4 { addr, prefix_len } => {
            let m = v4_mask(prefix_len);
            assert((addr & m) & m == addr & m) by (bit_vector);
        },
        IpNetValue::V6 { addr, prefix_len } => {
            let m = v6_mask(prefix_len);
            assert((addr & m) & m == addr & m) by (bit_vector);
        },
    }
}

/// What detection found on the cluster for each parameter (`None` where it
/// failed or was not tried).
pub struct DetectedParams {
    pub service_cidr: Option<IpNetValue>,
    pub pod_cidr: Option<IpNetValue>,
    pub kube_dns: Option<Option<String>>,
    pub service_domain: Option<Option<String>>,
}

/// A given network, its host bits cleared.
pub open spec fn given_net(v: IpNetwork) -> Option<IpNetValue> {
    match ip_net_parse(v@) {
        Some(x) => Some(trunc_spec(x)),
        None => None,
    }
}

/// The service CIDR of a new release: the given one truncated, else the detected one.
pub open spec fn release_service_cidr(args: InstallArgs, d: DetectedParams) -> Option<IpNetValue> {
    match args.service_cidr {
        Some(v) => given_net(v),
        None => d.service_cidr,
    }
}

/// The pod CIDR of a new release: the given one truncated, else the detected one.
pub open spec fn release_pod_cidr(args: InstallArgs, d: DetectedParams) -> Option<IpNetValue> {
    match args.pod_cidr {
        Some(v) => given_net(v),
        None => d.pod_cidr,
    }
}

/// The DNS service address of a new release.
pub open spec fn release_kube_dns(args: InstallArgs, d: DetectedParams) -> Option<Option<Seq<char>>> {
    match args.kube_dns {
        Some(v) => Some(Some(v@)),
        None => match d.kube_dns {
            Some(Some(x)) => Some(Some(x@)),
            Some(None) => Some(None),
            None => None,
        },
    }
}

/// The cluster domain of a new release.
pub open spec fn release_service_domain(args: InstallArgs, d: DetectedParams) -> Option<
    Option<Seq<char>>,
> {
    match args.service_domain {
        Some(v) => Some(Some(v@)),
        None => match d.service_domain {
            Some(Some(x)) => Some(Some(x@)),
            Some(None) => Some(None),
            None => None,
        },
    }
}

/// The text of an optional string.
pub open spec fn opt_string_view(t: Option<String>) -> Option<Seq<char>> {
    match t {
        Some(x) => Some(x@),
        None => None,
    }
}

/// The images of a release are those of the arguments.
pub open spec fn has_images(r: ControllerRelease, args: InstallArgs) -> bool {
    &&& r.controller_image_name@ == args.controller_image@
    &&& r.controller_image_tag@ == args.controller_image_tag@
    &&& r.network_manager_image_name@ == args.network_manager_image@
    &&& r.network_manager_image_tag@ == args.network_manager_image_tag@
    &&& r.router_image_name@ == args.router_image@
    &&& r.router_image_tag@ == args.router_image_tag@
}

fn copy_opt_string(t: &Option<String>) -> (r: Option<String>)
    ensures
        opt_string_view(r) == opt_string_view(*t),
{
    match t {
        Some(x) => Some(x.clone()),
        None => None,
    }
}

/// The release to install in `namespace`: each cluster parameter as given
/// (CIDRs with their host bits cleared), else as detected. A DNS service
/// address that is no IP address is refused first; then a parameter neither
/// given nor detected fails the preparation.
pub fn prepare_release(namespace: String, args: &InstallArgs, detected: &DetectedParams) -> (r:
    Result<ControllerRelease, InstallError>)
    ensures
        (args.kube_dns matches Some(d) && !is_ip_addr_text(d@)) ==> (r matches Err(
            InstallError::InvalidKubeDns(t),
        ) && args.kube_dns matches Some(d) && t@ == d@),
        !(args.kube_dns matches Some(d) && !is_ip_addr_text(d@)) ==> (r is Err <==> (
        release_service_cidr(*args, *detected) is None || release_pod_cidr(*args, *detected) is None
            || release_kube_dns(*args, *detected) is None || release_service_domain(
            *args,
            *detected,
        ) is None)),
        r matches Err(e) ==> (e is AutodetectFailed || e is InvalidKubeDns),
        r matches Ok(rel) ==> {
            &&& rel.namespace@ == namespace@
            &&& Some(rel.service_cidr) == release_service_cidr(*args, *detected)
            &&& Some(rel.pod_cidr) == release_pod_cidr(*args, *detected)
            &&& Some(opt_string_view(rel.kube_dns)) == release_kube_dns(*args, *detected)
            &&& Some(opt_string_view(rel.service_domain)) == release_service_domain(
                *args,
                *detected,
            )
            &&& has_images(rel, *args)
        },
{
    let service_cidr = match &args.service_cidr {
        Some(v) => Some(trunc(v.value())),
        None => detected.service_cidr,
    };
    let pod_cidr = match &args.pod_cidr {
        Some(v) => Some(trunc(v.value())),
        None => detected.pod_cidr,
    };
    let kube_dns = match &args.kube_dns {
        Some(v) => {
            if !check_ip_addr_text(v.as_str()) {
                return Err(InstallError::InvalidKubeDns(v.clone()));
            }
            Some(Some(v.clone()))
        },
        None => match &detected.kube_dns {
            Some(x) => Some(copy_opt_string(x)),
            None => None,
        },
    };
    let service_domain = match &args.service_domain {
        Some(v) => Some(Some(v.clone())),
        None => match &detected.service_domain {
            Some(x) => Some(copy_opt_string(x)),
            None => None,
        },
    };
    let service_cidr = match service_cidr {
        Some(v) => v,
        None => {
            return Err(InstallError::AutodetectFailed);
        },
    };
    let pod_cidr = match pod_cidr {
        Some(v) => v,
        None => {
            return Err(InstallError::AutodetectFailed);
        },
    };
    let kube_dns = match kube_dns {
        Some(v) => v,
        None => {
            return Err(InstallError::AutodetectFailed);
        },
    };
    let service_domain = match service_domain {
        Some(v) => v,
        None => {
            return Err(InstallError::AutodetectFailed);
        },
    };
    Ok(
        ControllerRelease {
            namespace,
            service_cidr,
            pod_cidr,
            kube_dns,
            service_domain,
            controller_image_name: args.controller_image.clone(),
            controller_image_tag: args.controller_image_tag.clone(),
            network_manager_image_name: args.network_manager_image.clone(),
            network_manager_image_tag: args.network_manager_image_tag.clone(),
            router_image_name: args.router_image.clone(),
            router_image_tag: args.router_image_tag.clone(),
        },
    )
}

/// The present release with the images of the arguments; everything else stays.
pub fn prepare_upgrade(current_release: ControllerRelease, args: &InstallArgs) -> (r:
    ControllerRelease)
    ensures
        has_images(r, *args),
        r.namespace == current_release.namespace,
        r.service_cidr == current_release.service_cidr,
        r.pod_cidr == current_release.pod_cidr,
        r.kube_dns == current_release.kube_dns,
        r.service_domain == current_release.service_domain,
{
    let mut r = current_release;
    r.controller_image_name = args.controller_image.clone();
    r.controller_image_tag = args.controller_image_tag.clone();
    r.network_manager_image_name = args.network_manager_image.clone();
    r.network_manager_image_tag = args.network_manager_image_tag.clone();
    r.router_image_name = args.router_image.clone();
    r.router_image_tag = args.router_image_tag.clone();
    r
}

/// What applying a release sends to the cluster besides the release itself.
pub struct ApplyPlan {
    /// The v1alpha1 CRDs are applied first.
    pub apply_crds: bool,
    /// Every request is only simulated.
    pub dry_run: bool,
}

/// The CRDs are applied, before the release, unless `--no-crds` is given;
/// a dry run applies to both.
pub fn plan_apply_release(args: &InstallArgs) -> (r: ApplyPlan)
    ensures
        r.apply_crds == !args.no_crds,
        r.dry_run == args.dry_run,
{
    ApplyPlan { apply_crds: !args.no_crds, dry_run: args.dry_run }
}

/// What `uninstall` removes besides the release's resources and roles.
pub struct UninstallPlan {
    /// The v1alpha1 CRDs are removed.
    pub remove_crds: bool,
    /// The namespace to remove afterwards, if any.
    pub remove_namespace: Option<String>,
    /// Removals are only simulated.
    pub dry_run: bool,
}

/// The CRDs go unless they are to stay; the namespace goes when asked.
pub fn plan_uninstall(args: &UninstallArgs, namespace: &str) -> (r: UninstallPlan)
    ensures
        r.remove_crds == !args.leave_crds,
        r.dry_run == args.dry_run,
        match r.remove_namespace {
            Some(n) => args.delete_namespace && n@ == namespace@,
            None => !args.delete_namespace,
        },
{
    UninstallPlan {
        remove_crds: !args.leave_crds,
        remove_namespace: if args.delete_namespace {
            Some(to_owned_string(namespace))
        } else {
            None
        },
        dry_run: args.dry_run,
    }
}

/// A parameter given on the command line is what the new release gets,
/// whatever detection found (a CIDR with its host bits cleared); detection
/// decides only the parameters that were not given.
pub proof fn lemma_given_parameters_win(args: InstallArgs, d: DetectedParams)
    ensures
        args.service_cidr matches Some(v) ==> (ip_net_parse(v@) matches Some(x)
            ==> release_service_cidr(args, d) == Some(trunc_spec(x))),
        args.pod_cidr matches Some(v) ==> (ip_net_parse(v@) matches Some(x) ==> release_pod_cidr(
            args,
            d,
        ) == Some(trunc_spec(x))),
        args.kube_dns matches Some(v) ==> release_kube_dns(args, d) == Some(Some(v@)),
        args.service_domain matches Some(v) ==> release_service_domain(args, d) == Some(Some(v@)),
        args.service_cidr is None ==> release_service_cidr(args, d) == d.service_cidr,
        args.pod_cidr is None ==> release_pod_cidr(args, d) == d.pod_cidr,
{
    match args.service_cidr {
        Some(v) => assert(release_service_cidr(args, d) == given_net(v)),
        None => {},
    }
    match args.pod_cidr {
        Some(v) => assert(release_pod_cidr(args, d) == given_net(v)),
        None => {},
    }
}

/// The pod CIDR of a release does not depend on what detection found when
/// one is given, and the same holds of the service CIDR.
pub proof fn lemma_given_cidrs_ignore_detection(args: InstallArgs, d1: DetectedParams, d2: DetectedParams)
    ensures
        args.pod_cidr is Some ==> release_pod_cidr(args, d1) == release_pod_cidr(args, d2),
        args.service_cidr is Some ==> release_service_cidr(args, d1) == release_service_cidr(args, d2),
{
}

} // verus!
