//! The Nova CLI tool definition, and its version-report builder.

use vstd::prelude::*;
use crate::tools::{InstallMethod, Tool, ToolVersion};
use crate::strutil::{
    chars_of, string_from_chars, split_first_line, remove_all_slice, spec_first_line,
    spec_remove_all,
};

verus! {

pub fn definition() -> (t: Tool)
    ensures
        t.name@ == "Nova CLI"@,
        t.install_method matches InstallMethod::Bootstrap(u) && u@ == "https://nova-cli.dev/install.sh"@,
        t.version_command.deep_view() == seq!["nova"@, "--version"@],
        t.binary_name matches Some(b) && b@ == "nova"@,
        t.config_dir is None,
{
    let mut vc: Vec<String> = Vec::new();
    vc.push(String::from_str("nova"));
    vc.push(String::from_str("--version"));
    assert(vc.deep_view() =~= seq!["nova"@, "--version"@]);
    Tool::new(
        "Nova CLI",
        InstallMethod::Bootstrap(String::from_str("https://nova-cli.dev/install.sh")),
        vc,
    ).with_binary_name("nova")
}

/// The installed version read from the tool's own version output: its first
/// line, with the display-name suffix removed.
pub open spec fn spec_nova_installed(raw: Option<Seq<char>>) -> Option<Seq<char>> {
    match raw {
        None => None,
        Some(s) => if s.len() == 0 {
            None
        } else {
            Some(spec_remove_all(spec_first_line(s), " (Nova CLI)"@))
        },
    }
}

/// Build the version report from the raw output of `nova --version`
/// (`None` where the command could not be run).
pub fn installed_version(raw: Option<String>) -> (v: ToolVersion)
    ensures
        v.name@ == "Nova CLI"@,
        v.identifier matches Some(i) && i@ == "nova"@,
        v.latest is None,
        ({
            let inst = spec_nova_installed(
                match raw {
                    Some(s) => Some(s@),
                    None => None,
                },
            );
            match v.installed {
                Some(x) => inst == Some(x@),
                None => inst is None,
            }
        }),
{
    let installed: Option<String> = match raw {
        None => None,
        Some(s) => {
            if s.as_str().unicode_len() == 0 {
                None
            } else {
                let cs = chars_of(s.as_str());
                let split = split_first_line(cs.as_slice());
                let pat = chars_of(" (Nova CLI)");
                proof {
                    reveal_strlit(" (Nova CLI)");
                    assert(pat@.len() == 11);
                }
                let cleaned = remove_all_slice(split.0, pat.as_slice());
                Some(string_from_chars(cleaned.as_slice()))
            }
        },
    };
    ToolVersion::new("Nova CLI").with_installed(installed).with_identifier("nova")
}

} // verus!
