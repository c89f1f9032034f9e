use k8s_insider::tool::operations::{
    check_if_resource_exists, choose_peer_pod, plan_tool_install, named_resources, text_file_result,
    uninstall_targets, ReleaseError,
};
use k8s_insider::tool::resources::get_common_release_labels;

#[test]
fn release_labels() {
    assert_eq!(
        get_common_release_labels("local-access"),
        "k8s-insider/release-name=local-access,app.kubernetes.io/name=k8s-insider,app.kubernetes.io/instance=k8s-insider-local-access,app.kubernetes.io/managed-by=k8s-insider-cli"
    );
}

#[test]
fn resource_counts() {
    assert_eq!(check_if_resource_exists(0), (false, false));
    assert_eq!(check_if_resource_exists(1), (true, false));
    assert_eq!(check_if_resource_exists(3), (true, true));
}

#[test]
fn removals() {
    let items = vec![Some("a".to_string()), None, Some("b".to_string())];
    assert_eq!(named_resources(&items), vec!["a", "b"]);
    assert_eq!(uninstall_targets(Some("a"), &items).unwrap(), vec!["a", "b"]);
    assert_eq!(uninstall_targets(None, &items), Err(ReleaseError::MultipleReleases));
    assert_eq!(uninstall_targets(None, &vec![None]).unwrap(), Vec::<String>::new());
}

#[test]
fn pod_choice() {
    let pods = vec![Some("p0".to_string()), None, Some("p2".to_string())];
    assert_eq!(choose_peer_pod(Some("r"), &pods, 6).unwrap(), "p0");
    assert_eq!(choose_peer_pod(Some("r"), &pods, 5).unwrap(), "p2");
    assert_eq!(choose_peer_pod(Some("r"), &pods, 4), Err(ReleaseError::NamelessPod));
    assert_eq!(choose_peer_pod(None, &pods, 0), Err(ReleaseError::MultipleReleases));
    assert_eq!(choose_peer_pod(None, &vec![Some("only".to_string())], 99).unwrap(), "only");
}

#[test]
fn remote_files() {
    assert_eq!(text_file_result("data".to_string(), "".to_string()), Ok("data".to_string()));
    assert_eq!(text_file_result("".to_string(), "no such file".to_string()), Err("no such file".to_string()));
}

#[test]
fn tool_install_refuses_an_existing_release_unless_forced() {
    assert_eq!(plan_tool_install(false, false), Ok(()));
    assert_eq!(plan_tool_install(false, true), Ok(()));
    assert_eq!(plan_tool_install(true, true), Ok(()));
    assert_eq!(plan_tool_install(true, false), Err(ReleaseError::ReleaseExists));
}
