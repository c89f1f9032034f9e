use k8s_insider::os::{
    add_dns_client_nrpt_rule, chmod, chmod_step, escape_quotes_powershell,
    remove_dns_client_nrpt_rule, required_step, uninstall_tunnel_service, CommandOutcome,
    OsCommand, OsError, StepResult,
};
use k8s_insider::wireguard::connection_manager::TargetOs;
use k8s_insider::wireguard::operations::{
    confine_file_to_owner, patch_dns_linux, patch_dns_windows, tunnel_connect,
    tunnel_connect_result, tunnel_connect_step, tunnel_disconnect, unpatch_dns,
};

fn argv(c: &OsCommand) -> Vec<String> {
    let mut v = vec![c.program.clone()];
    v.extend(c.args.iter().cloned());
    v
}

#[test]
fn chmod_writes_the_mode_in_octal() {
    assert_eq!(argv(&chmod("/t/a.conf", 0o600).unwrap()), vec!["chmod", "600", "/t/a.conf"]);
    assert_eq!(argv(&chmod("x", 0o777).unwrap()), vec!["chmod", "777", "x"]);
    assert_eq!(argv(&chmod("x", 0).unwrap()), vec!["chmod", "0", "x"]);
    assert!(matches!(chmod("x", 0o1000), Err(OsError::InvalidPermissions)));
}

#[test]
fn connect_and_disconnect_commands() {
    let linux: Vec<Vec<String>> = tunnel_connect("/t/insider0.conf", TargetOs::Linux)
        .unwrap()
        .iter()
        .map(argv)
        .collect();
    assert_eq!(
        linux,
        vec![
            vec!["chmod", "600", "/t/insider0.conf"],
            vec!["wg-quick", "up", "/t/insider0.conf"],
        ]
    );
    let windows: Vec<Vec<String>> = tunnel_connect("C:/t/insider0.conf", TargetOs::Windows)
        .unwrap()
        .iter()
        .map(argv)
        .collect();
    assert_eq!(windows, vec![vec!["wireguard", "/installtunnelservice", "C:/t/insider0.conf"]]);
    assert!(matches!(tunnel_connect("x", TargetOs::Other), Err(OsError::UnsupportedOs)));

    let down: Vec<Vec<String>> = tunnel_disconnect("/t/insider0.conf", TargetOs::Linux)
        .unwrap()
        .iter()
        .map(argv)
        .collect();
    assert_eq!(down, vec![vec!["wg-quick", "down", "/t/insider0.conf"]]);
    let service: Vec<Vec<String>> = tunnel_disconnect("C:/t/insider0.conf", TargetOs::Windows)
        .unwrap()
        .iter()
        .map(argv)
        .collect();
    assert_eq!(service, vec![vec!["wireguard", "/uninstalltunnelservice", "insider0"]]);
    assert!(matches!(tunnel_disconnect("/t/..", TargetOs::Windows), Err(OsError::InvalidConfigPath)));
    assert!(matches!(uninstall_tunnel_service("/t/.."), Err(OsError::InvalidConfigPath)));
    assert!(confine_file_to_owner("x").is_empty());
}

#[test]
fn dns_commands() {
    assert_eq!(
        argv(&patch_dns_linux("insider0", "cluster.local")),
        vec!["resolvectl", "domain", "insider0", "cluster.local"]
    );
    assert_eq!(
        argv(&patch_dns_windows("10.0.0.10", "cluster.local")),
        vec![
            "powershell",
            "-Command",
            "Add-DnsClientNrptRule -Namespace \".cluster.local\" -NameServers \"10.0.0.10\""
        ]
    );
    assert_eq!(argv(&add_dns_client_nrpt_rule("a\"b", "d")), argv(&patch_dns_windows("d", "a\"b")));
    assert_eq!(
        argv(&remove_dns_client_nrpt_rule("10.0.0.10", "cluster.local"))[2],
        "Get-DnsClientNrptRule | Where-Object {$_.Namespace -eq \".cluster.local\" -and $_.NameServers -eq \"10.0.0.10\"} | ForEach-Object -Process {Remove-DnsClientNrptRule -Name $_.Name -Force}"
    );
    assert!(unpatch_dns("10.0.0.10", "cluster.local", TargetOs::Linux).is_empty());
    let w = unpatch_dns("10.0.0.10", "cluster.local", TargetOs::Windows);
    assert_eq!(w.len(), 1);
    assert_eq!(w[0].program, "powershell");
}

#[test]
fn powershell_quotes_are_escaped() {
    assert_eq!(escape_quotes_powershell("a\"b\"c"), "a`\"b`\"c");
    assert_eq!(escape_quotes_powershell("plain"), "plain");
    assert_eq!(escape_quotes_powershell(""), "");
}

#[test]
fn chmod_fails_only_when_it_cannot_start() {
    assert_eq!(chmod_step(CommandOutcome::NotStarted), StepResult::Stop(OsError::CommandNotStarted));
    assert_eq!(chmod_step(CommandOutcome::ExitFailure), StepResult::ContinueWithWarning);
    assert_eq!(chmod_step(CommandOutcome::ExitSuccess), StepResult::Continue);
    assert_eq!(required_step(CommandOutcome::NotStarted), StepResult::Stop(OsError::CommandNotStarted));
    assert_eq!(required_step(CommandOutcome::ExitFailure), StepResult::Stop(OsError::CommandFailed));
    assert_eq!(required_step(CommandOutcome::ExitSuccess), StepResult::Continue);
}

#[test]
fn connecting_on_linux_follows_wg_quick() {
    let linux = TargetOs::Linux;
    assert_eq!(tunnel_connect_step(linux, 0, CommandOutcome::ExitFailure), StepResult::ContinueWithWarning);
    assert_eq!(tunnel_connect_step(linux, 1, CommandOutcome::ExitFailure), StepResult::Stop(OsError::CommandFailed));
    assert_eq!(tunnel_connect_result(linux, &vec![CommandOutcome::NotStarted]), Err(OsError::CommandNotStarted));
    assert_eq!(tunnel_connect_result(linux, &vec![CommandOutcome::ExitFailure, CommandOutcome::ExitSuccess]), Ok(()));
    assert_eq!(tunnel_connect_result(linux, &vec![CommandOutcome::ExitSuccess, CommandOutcome::ExitSuccess]), Ok(()));
    assert_eq!(tunnel_connect_result(linux, &vec![CommandOutcome::ExitSuccess, CommandOutcome::ExitFailure]), Err(OsError::CommandFailed));
    assert_eq!(tunnel_connect_result(linux, &vec![CommandOutcome::ExitFailure, CommandOutcome::NotStarted]), Err(OsError::CommandNotStarted));
}

#[test]
fn connecting_on_windows_needs_the_service_installed() {
    let windows = TargetOs::Windows;
    assert_eq!(tunnel_connect_result(windows, &vec![CommandOutcome::ExitSuccess]), Ok(()));
    assert_eq!(tunnel_connect_result(windows, &vec![CommandOutcome::ExitFailure]), Err(OsError::CommandFailed));
}
