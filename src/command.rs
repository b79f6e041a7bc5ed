use vstd::prelude::*;
use crate::shell::{Platform, ShellFamily};

verus! {

/// A process to start: the program, its arguments, the environment variables
/// to set, and the directory to run in (the current one when absent).
pub struct Invocation {
    pub program: String,
    pub args: Vec<String>,
    pub env: Vec<(String, String)>,
    pub working_dir: Option<String>,
}

/// An invocation as text values.
pub struct InvocationView {
    pub program: Seq<char>,
    pub args: Seq<Seq<char>>,
    pub env: Seq<(Seq<char>, Seq<char>)>,
    pub working_dir: Option<Seq<char>>,
}

pub open spec fn opt_view(o: Option<String>) -> Option<Seq<char>> {
    match o {
        Some(s) => Some(s@),
        None => None,
    }
}

impl View for Invocation {
    type V = InvocationView;

    open spec fn view(&self) -> InvocationView {
        InvocationView {
            program: self.program@,
            args: self.args@.map_values(|a: String| a@),
            env: self.env@.map_values(|p: (String, String)| (p.0@, p.1@)),
            working_dir: opt_view(self.working_dir),
        }
    }
}

/// What PowerShell on Windows runs before the command: UTF-8 console output.
pub open spec fn powershell_prelude() -> Seq<char> {
    "$OutputEncoding = [Console]::OutputEncoding = [System.Text.Encoding]::UTF8; "@
}

/// What cmd runs before the command: no echo, and the UTF-8 code page.
pub open spec fn cmd_prelude() -> Seq<char> {
    "@echo off & chcp 65001 >nul 2>&1 & "@
}

/// The program that runs a command for this family on this platform.
pub open spec fn program_of(family: ShellFamily, platform: Platform) -> Seq<char> {
    match family {
        ShellFamily::PowerShell => if platform == Platform::Windows {
            "powershell"@
        } else {
            "pwsh"@
        },
        ShellFamily::Cmd => "cmd"@,
        ShellFamily::Bash => "bash"@,
        ShellFamily::Zsh => "zsh"@,
        ShellFamily::Other => if platform == Platform::Windows {
            "cmd"@
        } else {
            "sh"@
        },
    }
}

/// The arguments that make the program run `command` and exit.
pub open spec fn args_of(family: ShellFamily, platform: Platform, command: Seq<char>) -> Seq<
    Seq<char>,
> {
    match family {
        ShellFamily::PowerShell => if platform == Platform::Windows {
            seq![
                "-NoProfile"@,
                "-NonInteractive"@,
                "-Command"@,
                powershell_prelude() + command,
            ]
        } else {
            seq!["-NoProfile"@, "-Command"@, command]
        },
        ShellFamily::Cmd => seq!["/C"@, cmd_prelude() + command],
        ShellFamily::Bash | ShellFamily::Zsh => seq!["-c"@, command],
        ShellFamily::Other => if platform == Platform::Windows {
            seq!["/C"@, cmd_prelude() + command]
        } else {
            seq!["-c"@, command]
        },
    }
}

/// The locale variables set for the command: a UTF-8 locale for POSIX shells.
pub open spec fn env_of(family: ShellFamily, platform: Platform) -> Seq<(Seq<char>, Seq<char>)> {
    match family {
        ShellFamily::Bash | ShellFamily::Zsh => seq![
            ("LANG"@, "C.UTF-8"@),
            ("LC_ALL"@, "C.UTF-8"@),
        ],
        ShellFamily::Other => if platform == Platform::Posix {
            seq![("LANG"@, "C.UTF-8"@)]
        } else {
            seq![]
        },
        _ => seq![],
    }
}

/// The first of two optional values that is present.
pub open spec fn first_present(a: Option<Seq<char>>, b: Option<Seq<char>>) -> Option<Seq<char>> {
    if a is Some {
        a
    } else {
        b
    }
}

/// The whole invocation for running `command` in a shell of this family.
pub open spec fn invocation_of(
    family: ShellFamily,
    platform: Platform,
    command: Seq<char>,
    working_dir: Option<Seq<char>>,
    home: Option<Seq<char>>,
) -> InvocationView {
    InvocationView {
        program: program_of(family, platform),
        args: args_of(family, platform, command),
        env: env_of(family, platform),
        working_dir: first_present(working_dir, home),
    }
}

/// The first of two optional strings that is present.
pub fn first_of(a: Option<String>, b: Option<String>) -> (r: Option<String>)
    ensures
        opt_view(r) == first_present(opt_view(a), opt_view(b)),
{
    match a {
        Some(s) => Some(s),
        None => b,
    }
}

/// The owner's home directory from the values of `USERPROFILE` and `HOME`:
/// the first that is set.
pub fn resolve_home(userprofile: Option<String>, home: Option<String>) -> (r: Option<String>)
    ensures
        opt_view(r) == first_present(opt_view(userprofile), opt_view(home)),
{
    first_of(userprofile, home)
}

fn text(s: &str) -> (r: String)
    ensures
        r@ == s@,
{
    s.to_owned()
}

fn prefixed(prefix: &str, command: &str) -> (r: String)
    ensures
        r@ == prefix@ + command@,
{
    text(prefix).concat(command)
}

/// Builds the invocation that runs `command` non-interactively in a shell of
/// this family and switches its output to UTF-8. An explicit working directory
/// wins over the home directory; with neither the process's current directory
/// is kept.
pub fn build(
    family: ShellFamily,
    platform: Platform,
    command: &str,
    working_dir: Option<String>,
    home: Option<String>,
) -> (r: Invocation)
    ensures
        r@ == invocation_of(family, platform, command@, opt_view(working_dir), opt_view(home)),
{
    let windows = platform == Platform::Windows;
    let mut args: Vec<String> = Vec::new();
    let mut env: Vec<(String, String)> = Vec::new();
    let program = match family {
        ShellFamily::PowerShell => {
            if windows {
                args.push(text("-NoProfile"));
                args.push(text("-NonInteractive"));
                args.push(text("-Command"));
                args.push(
                    prefixed(
                        "$OutputEncoding = [Console]::OutputEncoding = [System.Text.Encoding]::UTF8; ",
                        command,
                    ),
                );
                text("powershell")
            } else {
                args.push(text("-NoProfile"));
                args.push(text("-Command"));
                args.push(text(command));
                text("pwsh")
            }
        },
        ShellFamily::Cmd => {
            args.push(text("/C"));
            args.push(prefixed("@echo off & chcp 65001 >nul 2>&1 & ", command));
            text("cmd")
        },
        ShellFamily::Bash | ShellFamily::Zsh => {
            args.push(text("-c"));
            args.push(text(command));
            env.push((text("LANG"), text("C.UTF-8")));
            env.push((text("LC_ALL"), text("C.UTF-8")));
            if family == ShellFamily::Bash {
                text("bash")
            } else {
                text("zsh")
            }
        },
        ShellFamily::Other => {
            if windows {
                args.push(text("/C"));
                args.push(prefixed("@echo off & chcp 65001 >nul 2>&1 & ", command));
                text("cmd")
            } else {
                args.push(text("-c"));
                args.push(text(command));
                env.push((text("LANG"), text("C.UTF-8")));
                text("sh")
            }
        },
    };
    let r = Invocation { program, args, env, working_dir: first_of(working_dir, home) };
    assert(r@.args =~= args_of(family, platform, command@));
    assert(r@.env =~= env_of(family, platform));
    r
}

/// Every invocation asks for UTF-8 output before the command runs: console
/// shells on Windows switch their code page or output encoding first, and the
/// POSIX shells get a UTF-8 locale.
pub proof fn lemma_invocation_requests_utf8(
    family: ShellFamily,
    platform: Platform,
    command: Seq<char>,
)
    ensures
        platform == Platform::Windows && (family is Cmd || family is Other) ==> args_of(
            family,
            platform,
            command,
        ).last() == cmd_prelude() + command,
        family is Cmd ==> args_of(family, platform, command).last() == cmd_prelude() + command,
        platform == Platform::Windows && family is PowerShell ==> args_of(
            family,
            platform,
            command,
        ).last() == powershell_prelude() + command,
        (family is Bash || family is Zsh || (platform == Platform::Posix && family is Other))
            ==> env_of(family, platform)[0] == ("LANG"@, "C.UTF-8"@),
{
}

} // verus!
