use shell_terminal::error::TerminalError;
use shell_terminal::shell::{available_shells, Platform, ShellDescriptor, ShellFamily, ShellProbe};

fn names(v: &[ShellDescriptor]) -> Vec<(&str, &str, ShellFamily)> {
    v.iter().map(|d| (d.name.as_str(), d.path.as_str(), d.family)).collect()
}

#[test]
fn tags_name_families() {
    assert_eq!(ShellFamily::from_tag("powershell"), ShellFamily::PowerShell);
    assert_eq!(ShellFamily::from_tag("cmd"), ShellFamily::Cmd);
    assert_eq!(ShellFamily::from_tag("bash"), ShellFamily::Bash);
    assert_eq!(ShellFamily::from_tag("zsh"), ShellFamily::Zsh);
    assert_eq!(ShellFamily::from_tag("fish"), ShellFamily::Other);
}

#[test]
fn windows_always_offers_command_prompt() {
    let probe = ShellProbe { powershell: false, pwsh: false, bash: false, zsh: false };
    let shells = available_shells(Platform::Windows, probe).unwrap();
    assert_eq!(names(&shells), vec![("Command Prompt", "cmd", ShellFamily::Cmd)]);
}

#[test]
fn windows_menu_order() {
    let probe = ShellProbe { powershell: true, pwsh: true, bash: true, zsh: true };
    let shells = available_shells(Platform::Windows, probe).unwrap();
    assert_eq!(names(&shells), vec![
        ("PowerShell", "powershell", ShellFamily::PowerShell),
        ("PowerShell Core", "pwsh", ShellFamily::PowerShell),
        ("Command Prompt", "cmd", ShellFamily::Cmd),
        ("Bash", "bash", ShellFamily::Bash),
    ]);
}

#[test]
fn posix_menu_order() {
    let probe = ShellProbe { powershell: true, pwsh: true, bash: true, zsh: false };
    let shells = available_shells(Platform::Posix, probe).unwrap();
    assert_eq!(names(&shells), vec![
        ("Bash", "bash", ShellFamily::Bash),
        ("PowerShell Core", "pwsh", ShellFamily::PowerShell),
    ]);
}

#[test]
fn no_answer_means_no_shells() {
    let probe = ShellProbe { powershell: true, pwsh: false, bash: false, zsh: false };
    assert!(matches!(available_shells(Platform::Posix, probe), Err(TerminalError::NoShellsFound)));
}
