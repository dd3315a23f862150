//! Definitions of the managed tools: what a tool is, how it is installed,
//! and the shape of a version report. Running the tools to ask for their
//! versions is the caller's business; the per-tool modules turn raw command
//! output into a version report.

pub mod nova;
pub mod mistral_vibe;

use vstd::prelude::*;

verus! {

/// How a tool is installed.
pub enum InstallMethod {
    /// A bootstrap install script fetched from a URL.
    Bootstrap(String),
}

/// A managed tool: its name, how to install it, and how to ask it for its
/// version.
pub struct Tool {
    pub name: String,
    pub install_method: InstallMethod,
    pub version_command: Vec<String>,
    pub binary_name: Option<String>,
    pub config_dir: Option<String>,
}

impl Tool {
    pub fn new(name: &str, install_method: InstallMethod, version_command: Vec<String>) -> (t:
        Self)
        ensures
            t.name@ == name@,
            t.install_method == install_method,
            t.version_command == version_command,
            t.binary_name is None,
            t.config_dir is None,
    {
        Tool {
            name: String::from_str(name),
            install_method,
            version_command,
            binary_name: None,
            config_dir: None,
        }
    }

    pub fn with_binary_name(self, binary: &str) -> (t: Self)
        ensures
            t.name == self.name,
            t.install_method == self.install_method,
            t.version_command == self.version_command,
            t.binary_name matches Some(b) && b@ == binary@,
            t.config_dir == self.config_dir,
    {
        Tool { binary_name: Some(String::from_str(binary)), ..self }
    }

    pub fn with_config_dir(self, dir: &str) -> (t: Self)
        ensures
            t.name == self.name,
            t.install_method == self.install_method,
            t.version_command == self.version_command,
            t.binary_name == self.binary_name,
            t.config_dir matches Some(d) && d@ == dir@,
    {
        Tool { config_dir: Some(String::from_str(dir)), ..self }
    }
}

/// A tool's version report: what is installed, and the latest known release.
pub struct ToolVersion {
    pub name: String,
    pub identifier: Option<String>,
    pub installed: Option<String>,
    pub latest: Option<String>,
}

impl ToolVersion {
    pub fn new(name: &str) -> (v: Self)
        ensures
            v.name@ == name@,
            v.identifier is None,
            v.installed is None,
            v.latest is None,
    {
        ToolVersion { name: String::from_str(name), identifier: None, installed: None, latest: None }
    }

    pub fn with_installed(self, installed: Option<String>) -> (v: Self)
        ensures
            v.name == self.name,
            v.identifier == self.identifier,
            v.installed == installed,
            v.latest == self.latest,
    {
        ToolVersion { installed, ..self }
    }

    pub fn with_identifier(self, id: &str) -> (v: Self)
        ensures
            v.name == self.name,
            v.identifier matches Some(i) && i@ == id@,
            v.installed == self.installed,
            v.latest == self.latest,
    {
        ToolVersion { identifier: Some(String::from_str(id)), ..self }
    }
}

} // verus!
