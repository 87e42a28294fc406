//! Construction of the native "reveal in file manager" command.

use vstd::prelude::*;

verus! {

/// The closed set of platform families the reveal action distinguishes,
/// chosen once at build configuration by the caller.
#[derive(Debug, Clone, Copy, PartialEq, Eq, Structural)]
pub enum Platform {
    /// Windows-like systems: the file explorer with a named select option.
    Windows,
    /// Unix-like systems, macOS included: `open` with a short reveal option.
    Unix,
}

/// One invocation of the platform's file-manager launcher: the program to
/// spawn and its argument list, in order.  The caller spawns it as a
/// detached child process and does not wait for it.
#[derive(Debug, Clone)]
pub struct RevealCommand<'a> {
    /// The launcher program.
    pub program: &'static str,
    /// Its arguments, in order.
    pub args: Vec<&'a str>,
}

/// The launcher program of each platform family.
pub open spec fn spec_launcher(platform: Platform) -> Seq<char> {
    match platform {
        Platform::Windows => "explorer"@,
        Platform::Unix => "open"@,
    }
}

/// The flag that asks the launcher to select the path within its parent
/// folder rather than open it; it stands before the path.
pub open spec fn spec_select_flag(platform: Platform) -> Seq<char> {
    match platform {
        Platform::Windows => "/select,"@,
        Platform::Unix => "-R"@,
    }
}

/// Builds the command that asks the platform's native file manager either to
/// reveal `path` within its parent folder (`finder` true, the default when
/// absent) or to open it (`finder` false).  When revealing, the platform's
/// select flag stands before the path; otherwise the path is the only
/// argument.
pub fn view_file<'a>(path: &'a str, finder: Option<bool>, platform: Platform) -> (r:
    RevealCommand<'a>)
    ensures
        r.program@ == spec_launcher(platform),
        finder.unwrap_or(true) ==> r.args@.len() == 2 && r.args@[0]@ == spec_select_flag(platform)
            && r.args@[1]@ == path@,
        !finder.unwrap_or(true) ==> r.args@.len() == 1 && r.args@[0]@ == path@,
{
    let select = match finder {
        Some(b) => b,
        None => true,
    };
    let program: &'static str = match platform {
        Platform::Windows => "explorer",
        Platform::Unix => "open",
    };
    let mut args: Vec<&str> = Vec::new();
    if select {
        let flag: &'static str = match platform {
            Platform::Windows => "/select,",
            Platform::Unix => "-R",
        };
        args.push(flag);
    }
    args.push(path);
    RevealCommand { program, args }
}

} // verus!
