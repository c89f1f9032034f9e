//! Release labels and the description of a release.
use vstd::prelude::*;
use crate::text::{push_str, to_owned_string};

verus! {

/// The label selector shared by every resource of a release.
pub open spec fn release_labels(release_name: Seq<char>) -> Seq<char> {
    "k8s-insider/release-name="@ + release_name + ",app.kubernetes.io/name=k8s-insider,app.kubernetes.io/instance=k8s-insider-"@
        + release_name + ",app.kubernetes.io/managed-by=k8s-insider-cli"@
}

/// The label selector shared by every resource of the release `release_name`.
pub fn get_common_release_labels(release_name: &str) -> (r: String)
    ensures
        r@ == release_labels(release_name@),
{
    let mut r = to_owned_string("k8s-insider/release-name=");
    push_str(&mut r, release_name);
    push_str(
        &mut r,
        ",app.kubernetes.io/name=k8s-insider,app.kubernetes.io/instance=k8s-insider-",
    );
    push_str(&mut r, release_name);
    push_str(&mut r, ",app.kubernetes.io/managed-by=k8s-insider-cli");
    r
}

/// How a release's endpoint is exposed.
pub enum ReleaseService {
    /// Not exposed.
    NoService,
    NodePort { predefined_ips: Option<String> },
    LoadBalancer,
    ExternalIp { ip: String },
}

/// The parameters of a release of the helper tool.
pub struct Release {
    pub release_name: String,
    pub release_namespace: String,
    pub image_name: String,
    pub kube_dns: Option<String>,
    pub service_cidr: String,
    pub service_domain: Option<String>,
    pub pod_cidr: String,
    pub service: ReleaseService,
}

} // verus!
