use vstd::prelude::*;
use crate::error::TerminalError;

verus! {

/// The platform whose console conventions apply.
#[derive(Clone, Copy, Debug, PartialEq, Eq, Structural)]
pub enum Platform {
    Windows,
    Posix,
}

/// The closed set of shell families that quoting and decoding rules depend on.
#[derive(Clone, Copy, Debug, PartialEq, Eq, Structural)]
pub enum ShellFamily {
    PowerShell,
    Cmd,
    Bash,
    Zsh,
    Other,
}

impl ShellFamily {
    /// The console families of Windows, whose output may come in a legacy code page.
    pub open spec fn is_console(self) -> bool {
        self is PowerShell || self is Cmd
    }

    /// The family a shell tag names; any unknown tag is `Other`.
    pub open spec fn spec_from_tag(tag: Seq<char>) -> ShellFamily {
        if tag == "powershell"@ {
            ShellFamily::PowerShell
        } else if tag == "cmd"@ {
            ShellFamily::Cmd
        } else if tag == "bash"@ {
            ShellFamily::Bash
        } else if tag == "zsh"@ {
            ShellFamily::Zsh
        } else {
            ShellFamily::Other
        }
    }

    pub fn from_tag(tag: &str) -> (r: ShellFamily)
        ensures
            r == ShellFamily::spec_from_tag(tag@),
    {
        if str_eq(tag, "powershell") {
            ShellFamily::PowerShell
        } else if str_eq(tag, "cmd") {
            ShellFamily::Cmd
        } else if str_eq(tag, "bash") {
            ShellFamily::Bash
        } else if str_eq(tag, "zsh") {
            ShellFamily::Zsh
        } else {
            ShellFamily::Other
        }
    }
}

/// A shell that can be offered: its display name, the program that starts it,
/// and its family.
pub struct ShellDescriptor {
    pub name: String,
    pub path: String,
    pub family: ShellFamily,
}

/// Which shell programs answered a trial run.
#[derive(Clone, Copy, Debug)]
pub struct ShellProbe {
    pub powershell: bool,
    pub pwsh: bool,
    pub bash: bool,
    pub zsh: bool,
}

/// A descriptor as text values.
pub open spec fn descriptor_view(d: ShellDescriptor) -> (Seq<char>, Seq<char>, ShellFamily) {
    (d.name@, d.path@, d.family)
}

pub open spec fn offer(ok: bool, d: (Seq<char>, Seq<char>, ShellFamily)) -> Seq<
    (Seq<char>, Seq<char>, ShellFamily),
> {
    if ok {
        seq![d]
    } else {
        seq![]
    }
}

/// The shells to offer on a platform, in menu order, given what answered.
/// On Windows, Command Prompt is always there.
pub open spec fn shells_offered(platform: Platform, probe: ShellProbe) -> Seq<
    (Seq<char>, Seq<char>, ShellFamily),
> {
    if platform == Platform::Windows {
        offer(probe.powershell, ("PowerShell"@, "powershell"@, ShellFamily::PowerShell)) + offer(
            probe.pwsh,
            ("PowerShell Core"@, "pwsh"@, ShellFamily::PowerShell),
        ) + seq![("Command Prompt"@, "cmd"@, ShellFamily::Cmd)] + offer(
            probe.bash,
            ("Bash"@, "bash"@, ShellFamily::Bash),
        )
    } else {
        offer(probe.bash, ("Bash"@, "bash"@, ShellFamily::Bash)) + offer(
            probe.zsh,
            ("Zsh"@, "zsh"@, ShellFamily::Zsh),
        ) + offer(probe.pwsh, ("PowerShell Core"@, "pwsh"@, ShellFamily::PowerShell))
    }
}

fn descriptor(name: &str, path: &str, family: ShellFamily) -> (r: ShellDescriptor)
    ensures
        descriptor_view(r) == (name@, path@, family),
{
    ShellDescriptor { name: name.to_owned(), path: path.to_owned(), family }
}

fn offer_into(
    out: &mut Vec<ShellDescriptor>,
    ok: bool,
    name: &str,
    path: &str,
    family: ShellFamily,
)
    ensures
        final(out)@.map_values(|d: ShellDescriptor| descriptor_view(d)) == old(out)@.map_values(
            |d: ShellDescriptor| descriptor_view(d),
        ) + offer(ok, (name@, path@, family)),
{
    let ghost before = out@.map_values(|d: ShellDescriptor| descriptor_view(d));
    if ok {
        out.push(descriptor(name, path, family));
        assert(out@.map_values(|d: ShellDescriptor| descriptor_view(d)) =~= before + offer(
            ok,
            (name@, path@, family),
        ));
    } else {
        assert(before + offer(ok, (name@, path@, family)) =~= before);
    }
}

/// The shells to offer, in menu order; `NoShellsFound` when none answered.
pub fn available_shells(platform: Platform, probe: ShellProbe) -> (r: Result<
    Vec<ShellDescriptor>,
    TerminalError,
>)
    ensures
        shells_offered(platform, probe).len() == 0 ==> r is Err && r->Err_0
            == TerminalError::NoShellsFound,
        shells_offered(platform, probe).len() > 0 ==> r is Ok && r->Ok_0@.map_values(
            |d: ShellDescriptor| descriptor_view(d),
        ) == shells_offered(platform, probe),
{
    let mut out: Vec<ShellDescriptor> = Vec::new();
    assert(out@.map_values(|d: ShellDescriptor| descriptor_view(d)) =~= seq![]);
    if platform == Platform::Windows {
        offer_into(&mut out, probe.powershell, "PowerShell", "powershell", ShellFamily::PowerShell);
        offer_into(&mut out, probe.pwsh, "PowerShell Core", "pwsh", ShellFamily::PowerShell);
        offer_into(&mut out, true, "Command Prompt", "cmd", ShellFamily::Cmd);
        offer_into(&mut out, probe.bash, "Bash", "bash", ShellFamily::Bash);
    } else {
        offer_into(&mut out, probe.bash, "Bash", "bash", ShellFamily::Bash);
        offer_into(&mut out, probe.zsh, "Zsh", "zsh", ShellFamily::Zsh);
        offer_into(&mut out, probe.pwsh, "PowerShell Core", "pwsh", ShellFamily::PowerShell);
    }
    assert(out@.map_values(|d: ShellDescriptor| descriptor_view(d)) =~= shells_offered(
        platform,
        probe,
    ));
    if out.len() == 0 {
        Err(TerminalError::NoShellsFound)
    } else {
        Ok(out)
    }
}

/// Character-wise equality of two strings.
pub fn str_eq(a: &str, b: &str) -> (r: bool)
    ensures
        r == (a@ == b@),
{
    let x = a.to_owned();
    let y = b.to_owned();
    x == y
}

} // verus!
