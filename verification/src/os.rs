//! The system commands the tool runs: which program, with which arguments,
//! and what their outcomes mean. Running them is left to the caller.
use vstd::prelude::*;
use crate::path::{path_file_stem, file_stem};
use crate::text::{octal, push_char, push_octal, push_str, to_owned_string};

verus! {

/// A program and its arguments.
pub struct OsCommand {
    pub program: String,
    pub args: Vec<String>,
}

impl View for OsCommand {
    type V = (Seq<char>, Seq<Seq<char>>);

    open spec fn view(&self) -> (Seq<char>, Seq<Seq<char>>) {
        (self.program@, self.args@.map_values(|a: String| a@))
    }
}

/// Why a system operation fails: its command could not be formed, or did
/// not run as the operation needs.
#[derive(Debug, Clone, Copy, PartialEq, Eq, Structural)]
pub enum OsError {
    /// File permissions above `0o777`.
    InvalidPermissions,
    /// A configuration path without a file stem.
    InvalidConfigPath,
    /// An operating system the operation does not support.
    UnsupportedOs,
    /// A command could not be started.
    CommandNotStarted,
    /// A command whose success the operation needs exited with a failure.
    CommandFailed,
}

/// How running a command went.
#[derive(Debug, Clone, Copy, PartialEq, Eq, Structural)]
pub enum CommandOutcome {
    /// The process could not be started.
    NotStarted,
    /// It ran and exited with a failure status.
    ExitFailure,
    /// It ran and exited successfully.
    ExitSuccess,
}

/// What the outcome of a command means for the operation that runs it.
#[derive(Debug, Clone, Copy, PartialEq, Eq, Structural)]
pub enum StepResult {
    /// Go on with the next command.
    Continue,
    /// Go on, warning that the command failed.
    ContinueWithWarning,
    /// Stop here: the operation fails with this error.
    Stop(OsError),
}

/// The meaning of `chmod`'s outcome: it fails the operation only when it
/// cannot be started; a failing exit status only warrants a warning, since
/// the file stays usable.
pub open spec fn chmod_step_spec(o: CommandOutcome) -> StepResult {
    match o {
        CommandOutcome::NotStarted => StepResult::Stop(OsError::CommandNotStarted),
        CommandOutcome::ExitFailure => StepResult::ContinueWithWarning,
        CommandOutcome::ExitSuccess => StepResult::Continue,
    }
}

/// The meaning of the outcome of a command that the operation needs: any
/// failure stops it.
pub open spec fn required_step_spec(o: CommandOutcome) -> StepResult {
    match o {
        CommandOutcome::NotStarted => StepResult::Stop(OsError::CommandNotStarted),
        CommandOutcome::ExitFailure => StepResult::Stop(OsError::CommandFailed),
        CommandOutcome::ExitSuccess => StepResult::Continue,
    }
}

/// What `chmod`'s outcome means.
pub fn chmod_step(o: CommandOutcome) -> (r: StepResult)
    ensures
        r == chmod_step_spec(o),
{
    match o {
        CommandOutcome::NotStarted => StepResult::Stop(OsError::CommandNotStarted),
        CommandOutcome::ExitFailure => StepResult::ContinueWithWarning,
        CommandOutcome::ExitSuccess => StepResult::Continue,
    }
}

/// What the outcome of a needed command means.
pub fn required_step(o: CommandOutcome) -> (r: StepResult)
    ensures
        r == required_step_spec(o),
{
    match o {
        CommandOutcome::NotStarted => StepResult::Stop(OsError::CommandNotStarted),
        CommandOutcome::ExitFailure => StepResult::Stop(OsError::CommandFailed),
        CommandOutcome::ExitSuccess => StepResult::Continue,
    }
}

/// A command from a program name and two arguments.
fn command2(program: &str, a: String, b: String) -> (c: OsCommand)
    ensures
        c@ == (program@, seq![a@, b@]),
{
    let mut args: Vec<String> = Vec::new();
    args.push(a);
    args.push(b);
    let c = OsCommand { program: to_owned_string(program), args };
    assert(c@.1 =~= seq![a@, b@]);
    c
}

/// A command from a program name and three arguments.
fn command3(program: &str, a: String, b: String, d: String) -> (c: OsCommand)
    ensures
        c@ == (program@, seq![a@, b@, d@]),
{
    let mut args: Vec<String> = Vec::new();
    args.push(a);
    args.push(b);
    args.push(d);
    let c = OsCommand { program: to_owned_string(program), args };
    assert(c@.1 =~= seq![a@, b@, d@]);
    c
}

/// `chmod <mode in octal> <path>`; permissions above `0o777` are refused.
pub fn chmod(path: &str, permissions: u16) -> (r: Result<OsCommand, OsError>)
    ensures
        permissions > 0o777 <==> r is Err,
        r matches Err(e) ==> e == OsError::InvalidPermissions,
        r matches Ok(c) ==> c@ == ("chmod"@, seq![octal(permissions as nat), path@]),
{
    if permissions > 0o777 {
        return Err(OsError::InvalidPermissions);
    }
    let mut mode = String::new();
    push_octal(&mut mode, permissions as u64);
    assert(mode@ =~= octal(permissions as nat));
    Ok(command2("chmod", mode, to_owned_string(path)))
}

/// `wg-quick up <config_path>`.
pub fn wg_quick_up(config_path: &str) -> (c: OsCommand)
    ensures
        c@ == ("wg-quick"@, seq!["up"@, config_path@]),
{
    command2("wg-quick", to_owned_string("up"), to_owned_string(config_path))
}

/// `wg-quick down <config_path>`.
pub fn wg_quick_down(config_path: &str) -> (c: OsCommand)
    ensures
        c@ == ("wg-quick"@, seq!["down"@, config_path@]),
{
    command2("wg-quick", to_owned_string("down"), to_owned_string(config_path))
}

/// `resolvectl domain <ifname> <domain>`.
pub fn resolvectl_domain(ifname: &str, domain: &str) -> (c: OsCommand)
    ensures
        c@ == ("resolvectl"@, seq!["domain"@, ifname@, domain@]),
{
    command3("resolvectl", to_owned_string("domain"), to_owned_string(ifname), to_owned_string(domain))
}

/// `wireguard /installtunnelservice <config_path>`.
pub fn install_tunnel_service(config_path: &str) -> (c: OsCommand)
    ensures
        c@ == ("wireguard"@, seq!["/installtunnelservice"@, config_path@]),
{
    command2("wireguard", to_owned_string("/installtunnelservice"), to_owned_string(config_path))
}

/// `wireguard /uninstalltunnelservice <name>`, the tunnel being named after
/// the configuration file's stem; a path without a stem is refused.
pub fn uninstall_tunnel_service(config_path: &str) -> (r: Result<OsCommand, OsError>)
    ensures
        path_file_stem(config_path@) is None <==> r is Err,
        r matches Err(e) ==> e == OsError::InvalidConfigPath,
        r matches Ok(c) ==> path_file_stem(config_path@) matches Some(stem) && c@ == (
            "wireguard"@,
            seq!["/uninstalltunnelservice"@, stem],
        ),
{
    match file_stem(config_path) {
        Some(stem) => Ok(command2("wireguard", to_owned_string("/uninstalltunnelservice"), stem)),
        None => Err(OsError::InvalidConfigPath),
    }
}

/// `t` with each double quote preceded by a backtick, PowerShell's escape
/// character.
pub open spec fn powershell_escaped(t: Seq<char>) -> Seq<char>
    decreases t.len(),
{
    if t.len() == 0 {
        t
    } else {
        let rest = powershell_escaped(t.drop_last());
        if t.last() == '"' {
            rest.push('`').push('"')
        } else {
            rest.push(t.last())
        }
    }
}

/// Escapes the double quotes of `value` for a double-quoted PowerShell string.
pub fn escape_quotes_powershell(value: &str) -> (r: String)
    ensures
        r@ == powershell_escaped(value@),
{
    let n = value.unicode_len();
    let mut r = String::new();
    let mut i: usize = 0;
    while i < n
        invariant
            n == value@.len(),
            i <= n,
            r@ == powershell_escaped(value@.subrange(0, i as int)),
        decreases n - i,
    {
        let c = value.get_char(i);
        assert(value@.subrange(0, i + 1).drop_last() =~= value@.subrange(0, i as int));
        if c == '"' {
            push_char(&mut r, '`');
        }
        push_char(&mut r, c);
        i = i + 1;
    }
    assert(value@.subrange(0, n as int) =~= value@);
    r
}

/// The PowerShell script that adds a Name Resolution Policy Table rule
/// sending `domain` to `dns`.
pub open spec fn add_nrpt_rule_script(domain: Seq<char>, dns: Seq<char>) -> Seq<char> {
    "Add-DnsClientNrptRule -Namespace \"."@ + powershell_escaped(domain) + "\" -NameServers \""@
        + powershell_escaped(dns) + "\""@
}

/// The PowerShell script that removes the Name Resolution Policy Table rules
/// sending `domain` to `dns`. The domain goes into it as it is.
pub open spec fn remove_nrpt_rule_script(dns: Seq<char>, domain: Seq<char>) -> Seq<char> {
    "Get-DnsClientNrptRule | Where-Object {$_.Namespace -eq \"."@ + domain
        + "\" -and $_.NameServers -eq \""@ + powershell_escaped(dns)
        + "\"} | ForEach-Object -Process {Remove-DnsClientNrptRule -Name $_.Name -Force}"@
}

/// `powershell -Command <script>` adding the rule for `domain`.
pub fn add_dns_client_nrpt_rule(domain: &str, dns: &str) -> (c: OsCommand)
    ensures
        c@ == ("powershell"@, seq!["-Command"@, add_nrpt_rule_script(domain@, dns@)]),
{
    let mut script = to_owned_string("Add-DnsClientNrptRule -Namespace \".");
    let d = escape_quotes_powershell(domain);
    push_str(&mut script, d.as_str());
    push_str(&mut script, "\" -NameServers \"");
    let s = escape_quotes_powershell(dns);
    push_str(&mut script, s.as_str());
    push_str(&mut script, "\"");
    command2("powershell", to_owned_string("-Command"), script)
}

/// `powershell -Command <script>` removing the rules for `domain`.
pub fn remove_dns_client_nrpt_rule(dns: &str, domain: &str) -> (c: OsCommand)
    ensures
        c@ == ("powershell"@, seq!["-Command"@, remove_nrpt_rule_script(dns@, domain@)]),
{
    let mut script = to_owned_string("Get-DnsClientNrptRule | Where-Object {$_.Namespace -eq \".");
    push_str(&mut script, domain);
    push_str(&mut script, "\" -and $_.NameServers -eq \"");
    let s = escape_quotes_powershell(dns);
    push_str(&mut script, s.as_str());
    push_str(
        &mut script,
        "\"} | ForEach-Object -Process {Remove-DnsClientNrptRule -Name $_.Name -Force}",
    );
    command2("powershell", to_owned_string("-Command"), script)
}

} // verus!
