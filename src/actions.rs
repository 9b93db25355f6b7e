//! What each action launches: the helper program and its arguments, built
//! from the current target.
use vstd::prelude::*;
use crate::target::{trim_text, trimmed};

verus! {

/// Management consoles opened against the target host.
#[derive(Debug, Clone, Copy, PartialEq, Eq, Structural)]
pub enum Console {
    LocalUsers,
    Shares,
    Services,
    EventViewer,
    ComputerManagement,
    DeviceManager,
    PerformanceMonitor,
    PrintManagement,
}

/// Management consoles opened on this machine, with no target.
#[derive(Debug, Clone, Copy, PartialEq, Eq, Structural)]
pub enum LocalConsole {
    ActiveDirectory,
    Dhcp,
    Dns,
    GroupPolicy,
}

/// Queries run on the target through remote PowerShell.
#[derive(Debug, Clone, Copy, PartialEq, Eq, Structural)]
pub enum RemoteQuery {
    /// The user logged on at the console.
    CurrentUser,
    /// The full network configuration.
    IpConfig,
}

/// A program to start and the arguments to hand it.
pub struct LaunchSpec {
    pub program: String,
    pub args: Vec<String>,
}

/// The launch as character sequences.
pub open spec fn launch_view(l: LaunchSpec) -> (Seq<char>, Seq<Seq<char>>) {
    (l.program@, l.args@.map_values(|a: String| a@))
}

pub open spec fn console_snapin(c: Console) -> Seq<char> {
    match c {
        Console::LocalUsers => "lusrmgr.msc"@,
        Console::Shares => "fsmgmt.msc"@,
        Console::Services => "services.msc"@,
        Console::EventViewer => "eventvwr.msc"@,
        Console::ComputerManagement => "compmgmt.msc"@,
        Console::DeviceManager => "devmgmt.msc"@,
        Console::PerformanceMonitor => "perfmon"@,
        Console::PrintManagement => "printmanagement.msc"@,
    }
}

pub open spec fn local_snapin(c: LocalConsole) -> Seq<char> {
    match c {
        LocalConsole::ActiveDirectory => "dsa.msc"@,
        LocalConsole::Dhcp => "dhcpmgmt.msc"@,
        LocalConsole::Dns => "dnsmgmt.msc"@,
        LocalConsole::GroupPolicy => "gpmc.msc"@,
    }
}

pub open spec fn query_text(q: RemoteQuery) -> Seq<char> {
    match q {
        RemoteQuery::CurrentUser => "(Get-WmiObject -Class Win32_ComputerSystem).UserName"@,
        RemoteQuery::IpConfig => "(ipconfig /all)"@,
    }
}

/// The UNC prefix that names a host.
pub open spec fn unc_host(target: Seq<char>) -> Seq<char> {
    "\\\\"@ + target
}

/// The PowerShell line that runs `command` on `target`.
pub open spec fn remote_script_of(target: Seq<char>, command: Seq<char>) -> Seq<char> {
    "Invoke-Command -ComputerName "@ + target + " -ScriptBlock {"@ + command + "}"@
}

fn owned(s: &str) -> (r: String)
    ensures
        r@ == s@,
{
    s.to_string()
}

fn joined(a: &str, b: &str) -> (r: String)
    ensures
        r@ == a@ + b@,
{
    let mut r = a.to_string();
    r.append(b);
    r
}

/// The snap-in file of a console opened against the target.
pub fn snapin(c: Console) -> (r: &'static str)
    ensures
        r@ == console_snapin(c),
{
    match c {
        Console::LocalUsers => "lusrmgr.msc",
        Console::Shares => "fsmgmt.msc",
        Console::Services => "services.msc",
        Console::EventViewer => "eventvwr.msc",
        Console::ComputerManagement => "compmgmt.msc",
        Console::DeviceManager => "devmgmt.msc",
        Console::PerformanceMonitor => "perfmon",
        Console::PrintManagement => "printmanagement.msc",
    }
}

/// `mmc.exe <snap-in> /computer:<target>`.
pub fn console_launch(c: Console, target: &str) -> (r: LaunchSpec)
    ensures
        launch_view(r) == ("mmc.exe"@, seq![console_snapin(c), "/computer:"@ + target@]),
{
    let mut args: Vec<String> = Vec::new();
    args.push(owned(snapin(c)));
    args.push(joined("/computer:", target));
    let r = LaunchSpec { program: owned("mmc.exe"), args };
    assert(launch_view(r).1 =~= seq![console_snapin(c), "/computer:"@ + target@]);
    r
}

/// `mmc.exe <snap-in>` for a console that works on this machine.
pub fn local_console_launch(c: LocalConsole) -> (r: LaunchSpec)
    ensures
        launch_view(r) == ("mmc.exe"@, seq![local_snapin(c)]),
{
    let name: &str = match c {
        LocalConsole::ActiveDirectory => "dsa.msc",
        LocalConsole::Dhcp => "dhcpmgmt.msc",
        LocalConsole::Dns => "dnsmgmt.msc",
        LocalConsole::GroupPolicy => "gpmc.msc",
    };
    let mut args: Vec<String> = Vec::new();
    args.push(owned(name));
    let r = LaunchSpec { program: owned("mmc.exe"), args };
    assert(launch_view(r).1 =~= seq![local_snapin(c)]);
    r
}

/// `explorer.exe \\<target>\c$`: the administrative share of the target's
/// system drive.
pub fn c_share_launch(target: &str) -> (r: LaunchSpec)
    ensures
        launch_view(r) == ("explorer.exe"@, seq![unc_host(target@) + "\\c$"@]),
{
    let mut path = joined("\\\\", target);
    path.append("\\c$");
    let mut args: Vec<String> = Vec::new();
    args.push(path);
    let r = LaunchSpec { program: owned("explorer.exe"), args };
    assert(launch_view(r).1 =~= seq![unc_host(target@) + "\\c$"@]);
    r
}

/// The PowerShell line that runs `command` on `target`.
pub fn remote_script(target: &str, command: &str) -> (r: String)
    ensures
        r@ == remote_script_of(target@, command@),
{
    let mut r = joined("Invoke-Command -ComputerName ", target);
    r.append(" -ScriptBlock {");
    r.append(command);
    r.append("}");
    r
}

/// `powershell -NoProfile -Command <script>` running `command` on `target`.
pub fn remote_command_launch(target: &str, command: &str) -> (r: LaunchSpec)
    ensures
        launch_view(r) == ("powershell"@, seq!["-NoProfile"@, "-Command"@, remote_script_of(target@, command@)]),
{
    let mut args: Vec<String> = Vec::new();
    args.push(owned("-NoProfile"));
    args.push(owned("-Command"));
    args.push(remote_script(target, command));
    let r = LaunchSpec { program: owned("powershell"), args };
    assert(launch_view(r).1 =~= seq!["-NoProfile"@, "-Command"@, remote_script_of(target@, command@)]);
    r
}

/// The PowerShell expression behind a remote query.
pub fn query_command(q: RemoteQuery) -> (r: &'static str)
    ensures
        r@ == query_text(q),
{
    match q {
        RemoteQuery::CurrentUser => "(Get-WmiObject -Class Win32_ComputerSystem).UserName",
        RemoteQuery::IpConfig => "(ipconfig /all)",
    }
}

/// `ping -n 2 <target>`, run on this machine.
pub fn ping_launch(target: &str) -> (r: LaunchSpec)
    ensures
        launch_view(r) == ("ping"@, seq!["-n"@, "2"@, target@]),
{
    let mut args: Vec<String> = Vec::new();
    args.push(owned("-n"));
    args.push(owned("2"));
    args.push(owned(target));
    let r = LaunchSpec { program: owned("ping"), args };
    assert(launch_view(r).1 =~= seq!["-n"@, "2"@, target@]);
    r
}

/// `cmd /C shutdown /r|/s /t 0 /m \\<target>`: restarts the target when
/// `restart` holds, else shuts it down, at once.
pub fn power_launch(target: &str, restart: bool) -> (r: LaunchSpec)
    ensures
        launch_view(r) == ("cmd"@, seq![
            "/C"@,
            "shutdown"@,
            if restart { "/r"@ } else { "/s"@ },
            "/t"@,
            "0"@,
            "/m"@,
            unc_host(target@),
        ]),
{
    let mut args: Vec<String> = Vec::new();
    args.push(owned("/C"));
    args.push(owned("shutdown"));
    if restart {
        args.push(owned("/r"));
    } else {
        args.push(owned("/s"));
    }
    args.push(owned("/t"));
    args.push(owned("0"));
    args.push(owned("/m"));
    args.push(joined("\\\\", target));
    let r = LaunchSpec { program: owned("cmd"), args };
    assert(launch_view(r).1 =~= seq![
        "/C"@,
        "shutdown"@,
        if restart { "/r"@ } else { "/s"@ },
        "/t"@,
        "0"@,
        "/m"@,
        unc_host(target@),
    ]);
    r
}

/// The text a remote command reports: its standard output unless that is
/// blank, else its standard error.
pub fn pick_output(stdout: String, stderr: String) -> (r: String)
    ensures
        r@ == if trimmed(stdout@).len() > 0 { stdout@ } else { stderr@ },
{
    if trim_text(stdout.as_str()).is_empty() {
        stderr
    } else {
        stdout
    }
}

} // verus!
