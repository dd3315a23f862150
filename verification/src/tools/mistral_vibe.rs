//! The Mistral Vibe tool definition, and its version-report builder.

use vstd::prelude::*;
use crate::tools::{InstallMethod, Tool, ToolVersion};

verus! {

pub fn definition() -> (t: Tool)
    ensures
        t.name@ == "Mistral Vibe"@,
        t.install_method matches InstallMethod::Bootstrap(u) && u@
            == "https://mistral.ai/vibe/install.sh"@,
        t.version_command.deep_view() == seq!["vibe"@, "--version"@],
        t.binary_name matches Some(b) && b@ == "vibe"@,
        t.config_dir matches Some(d) && d@ == ".vibe"@,
{
    let mut vc: Vec<String> = Vec::new();
    vc.push(String::from_str("vibe"));
    vc.push(String::from_str("--version"));
    assert(vc.deep_view() =~= seq!["vibe"@, "--version"@]);
    Tool::new(
        "Mistral Vibe",
        InstallMethod::Bootstrap(String::from_str("https://mistral.ai/vibe/install.sh")),
        vc,
    ).with_binary_name("vibe").with_config_dir(".vibe")
}

/// Build the version report from the raw output of `vibe --version`
/// (`None` where the command could not be run).
pub fn installed_version(raw: Option<String>) -> (v: ToolVersion)
    ensures
        v.name@ == "Mistral Vibe"@,
        v.identifier matches Some(i) && i@ == "vibe"@,
        v.installed == raw,
        v.latest is None,
{
    ToolVersion::new("Mistral Vibe").with_installed(raw).with_identifier("vibe")
}

} // verus!
