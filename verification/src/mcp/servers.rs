//! The fixed catalog of known MCP servers.

use vstd::prelude::*;
use crate::strutil::str_eq;

verus! {

/// An MCP server that can be enabled or disabled for a target tool.
#[derive(Debug, Clone, PartialEq, Eq)]
pub struct McpServer {
    /// Internal identifier (lowercase, used on the command line)
    pub id: String,
    /// Display name
    pub name: String,
    /// Arguments for the package-runner command
    pub args: Vec<String>,
    /// Description for help text
    pub description: String,
}

impl McpServer {
    pub fn new(id: &str, name: &str, args: Vec<String>, description: &str) -> (s: Self)
        ensures
            s.id@ == id@,
            s.name@ == name@,
            s.args == args,
            s.description@ == description@,
    {
        McpServer {
            id: String::from_str(id),
            name: String::from_str(name),
            args,
            description: String::from_str(description),
        }
    }
}

/// What the catalog's first entry looks like.
pub open spec fn is_linear(s: McpServer) -> bool {
    &&& s.id@ == "linear"@
    &&& s.name@ == "Linear"@
    &&& s.args.deep_view() == seq!["mcp-remote"@, "https://mcp.linear.app/mcp"@]
    &&& s.description@ == "Linear issue tracking integration"@
}

/// What the catalog's second entry looks like.
pub open spec fn is_playwright(s: McpServer) -> bool {
    &&& s.id@ == "playwright"@
    &&& s.name@ == "Playwright"@
    &&& s.args.deep_view() == seq!["@playwright/mcp@latest"@]
    &&& s.description@ == "Browser automation with Playwright"@
}

fn linear() -> (s: McpServer)
    ensures
        is_linear(s),
{
    let mut args: Vec<String> = Vec::new();
    args.push(String::from_str("mcp-remote"));
    args.push(String::from_str("https://mcp.linear.app/mcp"));
    assert(args.deep_view() =~= seq!["mcp-remote"@, "https://mcp.linear.app/mcp"@]);
    McpServer::new(
        "linear",
        "Linear",
        args,
        "Linear issue tracking integration",
    )
}

fn playwright() -> (s: McpServer)
    ensures
        is_playwright(s),
{
    let mut args: Vec<String> = Vec::new();
    args.push(String::from_str("@playwright/mcp@latest"));
    assert(args.deep_view() =~= seq!["@playwright/mcp@latest"@]);
    McpServer::new(
        "playwright",
        "Playwright",
        args,
        "Browser automation with Playwright",
    )
}

/// Returns all available MCP servers, in their fixed display order.
pub fn catalog() -> (r: Vec<McpServer>)
    ensures
        r@.len() == 2,
        is_linear(r@[0]),
        is_playwright(r@[1]),
{
    let mut v: Vec<McpServer> = Vec::new();
    v.push(linear());
    v.push(playwright());
    v
}

/// Whether `id` names a server of the catalog.
pub open spec fn known_server_id(id: Seq<char>) -> bool {
    id == "linear"@ || id == "playwright"@
}

/// Find a server by its ID.
pub fn find(id: &str) -> (r: Option<McpServer>)
    ensures
        r is Some <==> known_server_id(id@),
        r matches Some(s) ==> s.id@ == id@,
        r matches Some(s) ==> is_linear(s) || is_playwright(s),
{
    if str_eq(id, "linear") {
        Some(linear())
    } else if str_eq(id, "playwright") {
        Some(playwright())
    } else {
        None
    }
}

} // verus!
