//! The options of the helper tool's commands.
use vstd::prelude::*;

verus! {

/// The release installed unless another name is given.
pub const DEAFULT_RELEASE_NAME: &'static str = "local-access";

/// The namespace worked in unless another is given.
pub const DEFAULT_NAMESPACE: &'static str = "k8s-insider";

/// Options of `uninstall`.
pub struct UninstallArgs {
    /// The release to uninstall (required when there are several).
    pub release_name: Option<String>,
}

/// Options of `connect`.
pub struct ConnectArgs {
    /// The release to connect to (required when there are several).
    pub release_name: Option<String>,
    /// Leave the DNS resolver as it is.
    pub dont_patch_dns: bool,
}

/// Options of `get-conf`.
pub struct GetConfArgs {
    /// The release whose configuration to get (required when there are several).
    pub release_name: Option<String>,
    /// Write the configuration to this file instead of the standard output.
    pub output: Option<String>,
}

/// Options of `patch-dns`.
pub struct PatchDnsArgs {
    /// The interface to patch.
    pub interface_name: String,
    /// The cluster domain of services.
    pub services_domain: String,
}

/// Options of `upgrade`.
pub struct UpgradeArgs {
    /// Only check for a new version.
    pub check_only: bool,
}

} // verus!
