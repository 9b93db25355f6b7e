use remote_panel::actions::{
    c_share_launch, console_launch, local_console_launch, pick_output, ping_launch, power_launch,
    query_command, remote_command_launch, remote_script, snapin, Console, LocalConsole, RemoteQuery,
};

#[test]
fn console_is_opened_against_target() {
    let l = console_launch(Console::Services, "host.example.com");
    assert_eq!(l.program, "mmc.exe");
    assert_eq!(l.args, vec!["services.msc".to_string(), "/computer:host.example.com".to_string()]);
    assert_eq!(snapin(Console::PerformanceMonitor), "perfmon");
    assert_eq!(snapin(Console::PrintManagement), "printmanagement.msc");
}

#[test]
fn local_console_has_no_target() {
    let l = local_console_launch(LocalConsole::Dns);
    assert_eq!(l.program, "mmc.exe");
    assert_eq!(l.args, vec!["dnsmgmt.msc".to_string()]);
}

#[test]
fn c_share_path() {
    let l = c_share_launch("pc1");
    assert_eq!(l.program, "explorer.exe");
    assert_eq!(l.args, vec!["\\\\pc1\\c$".to_string()]);
}

#[test]
fn remote_script_wraps_command() {
    assert_eq!(
        remote_script("pc1", "(ipconfig /all)"),
        "Invoke-Command -ComputerName pc1 -ScriptBlock {(ipconfig /all)}"
    );
    let l = remote_command_launch("pc1", query_command(RemoteQuery::CurrentUser));
    assert_eq!(l.program, "powershell");
    assert_eq!(l.args[0], "-NoProfile");
    assert_eq!(l.args[1], "-Command");
    assert_eq!(
        l.args[2],
        "Invoke-Command -ComputerName pc1 -ScriptBlock {(Get-WmiObject -Class Win32_ComputerSystem).UserName}"
    );
}

#[test]
fn power_commands() {
    let r = power_launch("pc1", true);
    assert_eq!(r.program, "cmd");
    assert_eq!(r.args, vec!["/C", "shutdown", "/r", "/t", "0", "/m", "\\\\pc1"]);
    let s = power_launch("pc1", false);
    assert_eq!(s.args[2], "/s");
}

#[test]
fn ping_twice() {
    let l = ping_launch("pc1");
    assert_eq!(l.program, "ping");
    assert_eq!(l.args, vec!["-n", "2", "pc1"]);
}

#[test]
fn blank_stdout_falls_back_to_stderr() {
    assert_eq!(pick_output(" \r\n".to_string(), "access denied".to_string()), "access denied");
    assert_eq!(pick_output("ok\n".to_string(), "warn".to_string()), "ok\n");
}
