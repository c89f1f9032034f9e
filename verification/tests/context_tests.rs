use k8s_insider::cli::{log_setup, GlobalArgs, LogLevel};
use k8s_insider::context::{
    resolve_insider_config_path, resolve_kube_config_path, resolve_kube_context,
    tunnels_directory, ContextError,
};

#[test]
fn kubeconfig_path() {
    assert_eq!(resolve_kube_config_path(Some("/k"), Some("/e"), Some("/h")).unwrap(), "/k");
    assert_eq!(resolve_kube_config_path(None, Some("/e"), Some("/h")).unwrap(), "/e");
    assert_eq!(resolve_kube_config_path(None, None, Some("/home/u")).unwrap(), "/home/u/.kube/config");
    assert_eq!(resolve_kube_config_path(None, None, None), Err(ContextError::MissingHomeDir));
}

#[test]
fn insider_config_path() {
    assert_eq!(resolve_insider_config_path(None, "/home/u/.kube/config").unwrap(), "/home/u/.kube/insider-config");
    assert_eq!(resolve_insider_config_path(None, "config").unwrap(), "insider-config");
    assert_eq!(resolve_insider_config_path(Some("/x/my.yaml"), "/k").unwrap(), "/x/my.yaml");
    assert_eq!(resolve_insider_config_path(Some("/x/.."), "/k"), Err(ContextError::InvalidInsiderConfigPath));
    assert_eq!(resolve_insider_config_path(Some(""), "/k"), Err(ContextError::InvalidInsiderConfigPath));
    assert_eq!(resolve_insider_config_path(Some("."), "/k"), Err(ContextError::InvalidInsiderConfigPath));
    assert_eq!(resolve_insider_config_path(Some("/"), "/k"), Err(ContextError::InvalidInsiderConfigPath));
    assert_eq!(resolve_insider_config_path(Some("dir/config/"), "/k").unwrap(), "dir/config/");
    assert_eq!(tunnels_directory("/home/u/.kube/insider-config"), "/home/u/.kube/insider-tunnels");
    assert_eq!(tunnels_directory("insider-config"), "insider-tunnels");
}

#[test]
fn kube_context() {
    assert_eq!(resolve_kube_context(Some("a"), Some("b")).unwrap(), "a");
    assert_eq!(resolve_kube_context(None, Some("b")).unwrap(), "b");
    assert_eq!(resolve_kube_context(None, None), Err(ContextError::MissingCurrentContext));
}

#[test]
fn log_levels() {
    let mut g = GlobalArgs {
        namespace: "ns".to_string(),
        config: None,
        kube_config: None,
        kube_context: None,
        verbose_logging: false,
        trace_logging: false,
    };
    assert_eq!(g.get_log_level(), LogLevel::Normal);
    g.verbose_logging = true;
    assert_eq!(g.get_log_level(), LogLevel::Verbose);
    g.trace_logging = true;
    assert_eq!(g.get_log_level(), LogLevel::Trace);
    let normal = log_setup(LogLevel::Normal);
    assert!(!normal.debug && !normal.show_module && normal.module == Some("k8s_insider"));
    let verbose = log_setup(LogLevel::Verbose);
    assert!(verbose.debug && verbose.module == Some("k8s_insider"));
    let trace = log_setup(LogLevel::Trace);
    assert!(trace.debug && trace.show_module && trace.module.is_none());
}
