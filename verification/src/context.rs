//! Where the tool finds its files and which kube context it works in.
use vstd::prelude::*;
use crate::path::{join_path, parent, path_file_name, path_join, path_parent};
use crate::text::to_owned_string;

verus! {

/// The file name of the tool's configuration, beside the kubeconfig by default.
pub const DEFAULT_CONFIG_FILENAME: &'static str = "insider-config";

/// The environment variable that names the kubeconfig.
pub const KUBECONFIG_ENV_VAR: &'static str = "KUBECONFIG";

/// The folder, beside the configuration, that holds the tunnels' files.
pub const WGCONF_RELATIVE_FOLDER: &'static str = "insider-tunnels";

/// Why the tool's context cannot be set up.
#[derive(Debug, Clone, Copy, PartialEq, Eq, Structural)]
pub enum ContextError {
    /// No kubeconfig was named and there is no home directory.
    MissingHomeDir,
    /// The configuration path names no file.
    InvalidInsiderConfigPath,
    /// No context was given and the kubeconfig has no current one.
    MissingCurrentContext,
}

/// The kubeconfig path: the one given, else the environment's, else
/// `.kube/config` in the home directory.
pub fn resolve_kube_config_path(
    given: Option<&str>,
    env_value: Option<&str>,
    home_dir: Option<&str>,
) -> (r: Result<String, ContextError>)
    ensures
        match given {
            Some(g) => r matches Ok(p) && p@ == g@,
            None => match env_value {
                Some(e) => r matches Ok(p) && p@ == e@,
                None => match home_dir {
                    Some(h) => r matches Ok(p) && p@ == path_join(
                        path_join(h@, ".kube"@),
                        "config"@,
                    ),
                    None => r == Err::<String, ContextError>(ContextError::MissingHomeDir),
                },
            },
        },
{
    match given {
        Some(g) => Ok(to_owned_string(g)),
        None => match env_value {
            Some(e) => Ok(to_owned_string(e)),
            None => match home_dir {
                Some(h) => {
                    let kube = join_path(h, ".kube");
                    Ok(join_path(kube.as_str(), "config"))
                },
                None => Err(ContextError::MissingHomeDir),
            },
        },
    }
}

/// Whether a path names a file: it has a file name.
pub open spec fn names_file(p: Seq<char>) -> bool {
    path_file_name(p) is Some
}

/// The configuration path: the one given, which must name a file, else
/// `insider-config` beside the kubeconfig.
pub fn resolve_insider_config_path(given: Option<&str>, kube_config_path: &str) -> (r: Result<
    String,
    ContextError,
>)
    ensures
        match given {
            Some(g) => if names_file(g@) {
                r matches Ok(p) && p@ == g@
            } else {
                r == Err::<String, ContextError>(ContextError::InvalidInsiderConfigPath)
            },
            None => r matches Ok(p) && p@ == path_join(
                match path_parent(kube_config_path@) {
                    Some(d) => d,
                    None => Seq::empty(),
                },
                DEFAULT_CONFIG_FILENAME@,
            ),
        },
{
    match given {
        Some(g) => {
            if crate::path::file_name(g).is_none() {
                return Err(ContextError::InvalidInsiderConfigPath);
            }
            Ok(to_owned_string(g))
        },
        None => {
            let dir = match parent(kube_config_path) {
                Some(d) => d,
                None => String::new(),
            };
            Ok(join_path(dir.as_str(), DEFAULT_CONFIG_FILENAME))
        },
    }
}

/// The kube context: the one given, else the kubeconfig's current one.
pub fn resolve_kube_context(given: Option<&str>, current_context: Option<&str>) -> (r: Result<
    String,
    ContextError,
>)
    ensures
        match given {
            Some(g) => r matches Ok(c) && c@ == g@,
            None => match current_context {
                Some(c) => r matches Ok(x) && x@ == c@,
                None => r == Err::<String, ContextError>(ContextError::MissingCurrentContext),
            },
        },
{
    match given {
        Some(g) => Ok(to_owned_string(g)),
        None => match current_context {
            Some(c) => Ok(to_owned_string(c)),
            None => Err(ContextError::MissingCurrentContext),
        },
    }
}

/// The folder of the tunnels' files: `insider-tunnels` beside the
/// configuration.
pub fn tunnels_directory(insider_config_path: &str) -> (r: String)
    requires
        path_parent(insider_config_path@) is Some,
    ensures
        r@ == path_join(path_parent(insider_config_path@)->0, WGCONF_RELATIVE_FOLDER@),
{
    let dir = parent(insider_config_path).unwrap();
    join_path(dir.as_str(), WGCONF_RELATIVE_FOLDER)
}

} // verus!
