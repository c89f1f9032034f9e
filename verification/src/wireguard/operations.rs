//! The system commands that bring a WireGuard tunnel up and down and point the
//! resolver at a network's DNS server, per operating system.
use vstd::prelude::*;
use crate::os::{
    chmod_step, chmod_step_spec, required_step, required_step_spec, CommandOutcome, StepResult,
    add_nrpt_rule_script, chmod, install_tunnel_service, remove_nrpt_rule_script, resolvectl_domain,
    uninstall_tunnel_service, wg_quick_down, wg_quick_up, add_dns_client_nrpt_rule,
    remove_dns_client_nrpt_rule, OsCommand, OsError,
};
use crate::path::path_file_stem;
use crate::text::octal;
use crate::wireguard::connection_manager::TargetOs;

verus! {

/// The commands of a list, each by its view.
pub open spec fn commands_view(v: Seq<OsCommand>) -> Seq<(Seq<char>, Seq<Seq<char>>)> {
    v.map_values(|c: OsCommand| c@)
}

/// Restricting a file to its owner: nothing is run for it.
pub fn confine_file_to_owner(path: &str) -> (r: Vec<OsCommand>)
    ensures
        r@.len() == 0,
{
    Vec::new()
}

/// The commands that bring the tunnel of `config_path` up: on Linux the
/// configuration is made readable by its owner alone (`chmod 600`) and
/// `wg-quick up` runs; on Windows a tunnel service is installed.
pub fn tunnel_connect(config_path: &str, os: TargetOs) -> (r: Result<Vec<OsCommand>, OsError>)
    ensures
        os == TargetOs::Other <==> r is Err,
        r matches Err(e) ==> e == OsError::UnsupportedOs,
        os == TargetOs::Linux ==> (r matches Ok(v) && commands_view(v@) == seq![
            ("chmod"@, seq![octal(0o600nat), config_path@]),
            ("wg-quick"@, seq!["up"@, config_path@]),
        ]),
        os == TargetOs::Windows ==> (r matches Ok(v) && commands_view(v@) == seq![
            ("wireguard"@, seq!["/installtunnelservice"@, config_path@]),
        ]),
{
    match os {
        TargetOs::Linux => {
            let mut v: Vec<OsCommand> = Vec::new();
            let c = match chmod(config_path, 0o600) {
                Ok(c) => c,
                Err(e) => {
                    return Err(e);
                },
            };
            v.push(c);
            v.push(wg_quick_up(config_path));
            assert(commands_view(v@) =~= seq![v@[0]@, v@[1]@]);
            Ok(v)
        },
        TargetOs::Windows => {
            let mut v = confine_file_to_owner(config_path);
            v.push(install_tunnel_service(config_path));
            assert(commands_view(v@) =~= seq![v@[0]@]);
            Ok(v)
        },
        TargetOs::Other => Err(OsError::UnsupportedOs),
    }
}

/// What the outcome of the `i`-th command of `tunnel_connect` means: on
/// Linux the first is `chmod`, whose failing exit status only warrants a
/// warning; every other command must succeed.
pub open spec fn connect_step(os: TargetOs, i: int, o: CommandOutcome) -> StepResult {
    if os == TargetOs::Linux && i == 0 {
        chmod_step_spec(o)
    } else {
        required_step_spec(o)
    }
}

/// The result of connecting once the commands ran with these outcomes, in
/// order: the error of the first that stops it, else success.
pub open spec fn connect_result(os: TargetOs, outcomes: Seq<CommandOutcome>) -> Result<(), OsError>
    decreases outcomes.len(),
{
    if outcomes.len() == 0 {
        Ok(())
    } else {
        match connect_result(os, outcomes.drop_last()) {
            Err(e) => Err(e),
            Ok(()) => match connect_step(os, outcomes.len() - 1, outcomes.last()) {
                StepResult::Stop(e) => Err(e),
                _ => Ok(()),
            },
        }
    }
}

/// What the outcome of the `index`-th command of `tunnel_connect` means; a
/// `Stop` means the commands after it are not run.
pub fn tunnel_connect_step(os: TargetOs, index: usize, o: CommandOutcome) -> (r: StepResult)
    ensures
        r == connect_step(os, index as int, o),
{
    if os == TargetOs::Linux && index == 0 {
        chmod_step(o)
    } else {
        required_step(o)
    }
}

/// The result of connecting from the outcomes of the commands run. On
/// Linux: a `chmod` that cannot start fails it (and `wg-quick` is not run);
/// otherwise it succeeds exactly when `wg-quick up` succeeds, whatever
/// `chmod`'s exit status.
pub fn tunnel_connect_result(os: TargetOs, outcomes: &Vec<CommandOutcome>) -> (r: Result<(), OsError>)
    ensures
        r == connect_result(os, outcomes@),
        os == TargetOs::Linux && outcomes@.len() >= 1 && outcomes@[0] == CommandOutcome::NotStarted
            ==> r == Err::<(), OsError>(OsError::CommandNotStarted),
        os == TargetOs::Linux && outcomes@.len() == 2 && outcomes@[0] != CommandOutcome::NotStarted
            ==> (r is Ok <==> outcomes@[1] == CommandOutcome::ExitSuccess),
{
    let mut i: usize = 0;
    while i < outcomes.len()
        invariant
            i <= outcomes@.len(),
            connect_result(os, outcomes@.take(i as int)) == Ok::<(), OsError>(()),
        decreases outcomes@.len() - i,
    {
        assert(outcomes@.take(i + 1).drop_last() =~= outcomes@.take(i as int));
        match tunnel_connect_step(os, i, outcomes[i]) {
            StepResult::Stop(e) => {
                proof {
                    lemma_connect_result_prefix(os, outcomes@, i as int + 1);
                    lemma_linux_connect_rule(outcomes@);
                }
                return Err(e);
            },
            _ => {},
        }
        i = i + 1;
    }
    assert(outcomes@.take(outcomes@.len() as int) =~= outcomes@);
    proof {
        lemma_linux_connect_rule(outcomes@);
    }
    Ok(())
}

/// Once connecting fails on the first `n` outcomes, it fails with the same
/// error on all of them: the commands after the failing one change nothing.
proof fn lemma_connect_result_prefix(os: TargetOs, s: Seq<CommandOutcome>, n: int)
    requires
        0 <= n <= s.len(),
        connect_result(os, s.take(n)) is Err,
    ensures
        connect_result(os, s) == connect_result(os, s.take(n)),
    decreases s.len() - n,
{
    if n < s.len() {
        assert(s.take(n + 1).drop_last() =~= s.take(n));
        lemma_connect_result_prefix(os, s, n + 1);
    } else {
        assert(s.take(n) =~= s);
    }
}

/// Connecting on Linux: a `chmod` that cannot start fails it; once `chmod`
/// has run, whatever its exit status, `wg-quick up` alone decides.
pub proof fn lemma_linux_connect_rule(s: Seq<CommandOutcome>)
    ensures
        s.len() >= 1 && s[0] == CommandOutcome::NotStarted ==> connect_result(TargetOs::Linux, s)
            == Err::<(), OsError>(OsError::CommandNotStarted),
        s.len() == 2 && s[0] != CommandOutcome::NotStarted ==> (connect_result(TargetOs::Linux, s)
            is Ok <==> s[1] == CommandOutcome::ExitSuccess),
{
    let os = TargetOs::Linux;
    if s.len() >= 1 {
        assert(s.take(1).drop_last() =~= s.take(0));
        assert(connect_result(os, s.take(0)) == Ok::<(), OsError>(()));
        assert(s.take(1).last() == s[0]);
        if s[0] == CommandOutcome::NotStarted {
            lemma_connect_result_prefix(os, s, 1);
        }
        if s.len() == 2 {
            assert(s.drop_last() =~= s.take(1));
        }
    }
}

/// The commands that bring the tunnel of `config_path` down: `wg-quick down`
/// on Linux; on Windows the tunnel service named after the file's stem is
/// uninstalled, which takes a path with a stem.
pub fn tunnel_disconnect(config_path: &str, os: TargetOs) -> (r: Result<Vec<OsCommand>, OsError>)
    ensures
        r is Err <==> (os == TargetOs::Other || (os == TargetOs::Windows && path_file_stem(
            config_path@,
        ) is None)),
        os == TargetOs::Other ==> (r matches Err(e) && e == OsError::UnsupportedOs),
        os == TargetOs::Windows && path_file_stem(config_path@) is None ==> (r matches Err(e) && e
            == OsError::InvalidConfigPath),
        os == TargetOs::Linux ==> (r matches Ok(v) && commands_view(v@) == seq![
            ("wg-quick"@, seq!["down"@, config_path@]),
        ]),
        os == TargetOs::Windows ==> (path_file_stem(config_path@) matches Some(stem) ==> (r matches Ok(v) && commands_view(v@)
            == seq![("wireguard"@, seq!["/uninstalltunnelservice"@, stem])])),
{
    match os {
        TargetOs::Linux => {
            let mut v: Vec<OsCommand> = Vec::new();
            v.push(wg_quick_down(config_path));
            assert(commands_view(v@) =~= seq![v@[0]@]);
            Ok(v)
        },
        TargetOs::Windows => {
            let c = match uninstall_tunnel_service(config_path) {
                Ok(c) => c,
                Err(e) => {
                    return Err(e);
                },
            };
            let mut v: Vec<OsCommand> = Vec::new();
            v.push(c);
            assert(commands_view(v@) =~= seq![v@[0]@]);
            Ok(v)
        },
        TargetOs::Other => Err(OsError::UnsupportedOs),
    }
}

/// On Linux, systemd-resolved sends `domain` to the interface `ifname`.
pub fn patch_dns_linux(ifname: &str, domain: &str) -> (c: OsCommand)
    ensures
        c@ == ("resolvectl"@, seq!["domain"@, ifname@, domain@]),
{
    resolvectl_domain(ifname, domain)
}

/// On Windows, a Name Resolution Policy Table rule sends `domain` to `dns`.
pub fn patch_dns_windows(dns: &str, domain: &str) -> (c: OsCommand)
    ensures
        c@ == ("powershell"@, seq!["-Command"@, add_nrpt_rule_script(domain@, dns@)]),
{
    add_dns_client_nrpt_rule(domain, dns)
}

/// Undoing a resolver patch: nothing on Linux, where the setting leaves with
/// the interface; on Windows the rules sending `domain` to `dns` are removed.
pub fn unpatch_dns(dns: &str, domain: &str, os: TargetOs) -> (r: Vec<OsCommand>)
    ensures
        os != TargetOs::Windows ==> r@.len() == 0,
        os == TargetOs::Windows ==> commands_view(r@) == seq![
            ("powershell"@, seq!["-Command"@, remove_nrpt_rule_script(dns@, domain@)]),
        ],
{
    let mut v: Vec<OsCommand> = Vec::new();
    if os == TargetOs::Windows {
        v.push(remove_dns_client_nrpt_rule(dns, domain));
        assert(commands_view(v@) =~= seq![v@[0]@]);
    }
    v
}

} // verus!
