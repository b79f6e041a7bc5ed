use shell_terminal::command::{build, resolve_home};
use shell_terminal::shell::{Platform, ShellFamily};

fn args(v: &[String]) -> Vec<&str> {
    v.iter().map(|s| s.as_str()).collect()
}

#[test]
fn bash_runs_with_utf8_locale() {
    let inv = build(ShellFamily::Bash, Platform::Posix, "echo hi", None, Some("/home/u".to_string()));
    assert_eq!(inv.program, "bash");
    assert_eq!(args(&inv.args), vec!["-c", "echo hi"]);
    assert_eq!(inv.env, vec![
        ("LANG".to_string(), "C.UTF-8".to_string()),
        ("LC_ALL".to_string(), "C.UTF-8".to_string()),
    ]);
    assert_eq!(inv.working_dir.as_deref(), Some("/home/u"));
}

#[test]
fn explicit_working_dir_wins() {
    let inv = build(ShellFamily::Zsh, Platform::Posix, "ls", Some("/tmp".to_string()), Some("/home/u".to_string()));
    assert_eq!(inv.program, "zsh");
    assert_eq!(inv.working_dir.as_deref(), Some("/tmp"));
}

#[test]
fn no_directory_keeps_current_one() {
    let inv = build(ShellFamily::Bash, Platform::Posix, "pwd", None, None);
    assert_eq!(inv.working_dir, None);
}

#[test]
fn cmd_switches_code_page_first() {
    let inv = build(ShellFamily::Cmd, Platform::Windows, "dir", None, None);
    assert_eq!(inv.program, "cmd");
    assert_eq!(args(&inv.args), vec!["/C", "@echo off & chcp 65001 >nul 2>&1 & dir"]);
    assert!(inv.env.is_empty());
}

#[test]
fn windows_powershell_sets_utf8_output() {
    let inv = build(ShellFamily::PowerShell, Platform::Windows, "Get-Date", None, None);
    assert_eq!(inv.program, "powershell");
    assert_eq!(args(&inv.args), vec![
        "-NoProfile",
        "-NonInteractive",
        "-Command",
        "$OutputEncoding = [Console]::OutputEncoding = [System.Text.Encoding]::UTF8; Get-Date",
    ]);
}

#[test]
fn powershell_elsewhere_is_pwsh() {
    let inv = build(ShellFamily::PowerShell, Platform::Posix, "Get-Date", None, None);
    assert_eq!(inv.program, "pwsh");
    assert_eq!(args(&inv.args), vec!["-NoProfile", "-Command", "Get-Date"]);
}

#[test]
fn unknown_family_uses_platform_default() {
    let posix = build(ShellFamily::Other, Platform::Posix, "echo x", None, None);
    assert_eq!(posix.program, "sh");
    assert_eq!(args(&posix.args), vec!["-c", "echo x"]);
    assert_eq!(posix.env, vec![("LANG".to_string(), "C.UTF-8".to_string())]);
    let windows = build(ShellFamily::Other, Platform::Windows, "echo x", None, None);
    assert_eq!(windows.program, "cmd");
    assert_eq!(args(&windows.args), vec!["/C", "@echo off & chcp 65001 >nul 2>&1 & echo x"]);
}

#[test]
fn home_prefers_userprofile() {
    assert_eq!(resolve_home(Some("C:\\Users\\u".to_string()), Some("/home/u".to_string())).as_deref(), Some("C:\\Users\\u"));
    assert_eq!(resolve_home(None, Some("/home/u".to_string())).as_deref(), Some("/home/u"));
    assert_eq!(resolve_home(None, None), None);
}
