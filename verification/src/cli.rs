//! The command-line surface of the tool, as plain data. The argument parser
//! that fills these in lives with the binary; the library only defines what
//! a parsed invocation holds.

use vstd::prelude::*;

verus! {

/// A parsed invocation.
pub struct Cli {
    /// Print version
    pub version: Option<bool>,
    pub command: Option<Commands>,
}

/// The top-level commands.
pub enum Commands {
    /// Manage AI CLI tools (install, update, uninstall)
    Apps { command: Option<AppsCommands> },
    /// Manage MCP servers across AI CLI tools
    Mcp { command: Option<McpCommands> },
}

/// The tool-management subcommands.
pub enum AppsCommands {
    /// Check latest versions available
    Check,
    /// Upgrade AI CLI tools, optionally one named tool
    Upgrade { tool: Option<String> },
    /// Update AI CLI tools (alias for upgrade)
    Update { tool: Option<String> },
    /// Install AI CLI tools, optionally one named tool
    Install { tool: Option<String> },
    /// Install AI CLI tools (alias for install)
    Add { tool: Option<String> },
    /// Uninstall AI CLI tools, optionally one named tool
    Uninstall { tool: Option<String>, remove_config: bool, force: bool },
    /// Uninstall AI CLI tools (alias for uninstall)
    Remove { tool: Option<String>, remove_config: bool, force: bool },
    /// List installed AI CLI tools
    List,
}

/// The MCP subcommands.
pub enum McpCommands {
    /// List MCP servers and their status across tools
    List,
    /// Enable an MCP server across all installed tools
    Enable { server: String },
    /// Disable an MCP server across all installed tools
    Disable { server: String },
    /// Show installed tools and their config paths
    Doctor,
}

} // verus!
