//! The fixed registry of target tools, and the per-target config adapter.
//!
//! Each target carries a configuration method: a structured (JSON) file with
//! its key conventions, or a text-table (TOML) file. The adapter methods take
//! the current text of the target's configuration file and compute the new
//! text, leaving the reading and writing of the file to the caller.

use vstd::prelude::*;
use crate::mcp::servers::McpServer;
use crate::mcp::config::{
    McpError, text_view, json_enables, json_doc_for_enable, json_enable_model,
    json_disable_model, json_has_server, enable_in_json, disable_in_json, is_enabled_in_json,
    toml_doc_for_enable, toml_enable_model, toml_disable_model, toml_has_server, enable_in_toml,
    disable_in_toml, is_enabled_in_toml,
};
use crate::jsondoc::json_of_text;
use crate::tomldoc::toml_of_text;
use crate::strutil::str_eq;

verus! {

/// How a target tool configures MCP servers.
#[derive(Debug, Clone)]
pub enum ConfigMethod {
    /// A structured (JSON) config file with a servers object.
    JsonConfig {
        path: String,
        /// Key under which servers live, e.g. "mcpServers" or "amp.mcpServers"
        servers_key: String,
        /// Server name override (e.g. "Playwright" instead of "playwright")
        server_name_override: Option<String>,
        /// Type field value: none, "stdio", or "local"
        type_value: Option<String>,
        /// Whether to write a capabilities field `"tools": ["*"]`
        include_tools_field: bool,
    },
    /// A text-table (TOML) config file with one table per server.
    TomlConfig { path: String },
}

/// A target tool that supports MCP servers.
#[derive(Debug, Clone)]
pub struct McpTarget {
    pub name: String,
    pub binary_name: String,
    pub config_method: ConfigMethod,
}

/// The configuration file path of a method.
pub open spec fn spec_config_path(m: ConfigMethod) -> Seq<char> {
    match m {
        ConfigMethod::JsonConfig { path, .. } => path@,
        ConfigMethod::TomlConfig { path } => path@,
    }
}

/// The key under which a method's servers collection lives: the configured
/// key for a structured file, the fixed `mcp_servers` table for a text-table
/// file.
pub open spec fn method_servers_key(m: ConfigMethod) -> Seq<char> {
    match m {
        ConfigMethod::JsonConfig { servers_key, .. } => servers_key@,
        ConfigMethod::TomlConfig { .. } => "mcp_servers"@,
    }
}

/// The key the server is filed under: the target's override where set, the
/// server's own id otherwise.
pub open spec fn effective_server_name(m: ConfigMethod, server: McpServer) -> Seq<char> {
    match m {
        ConfigMethod::JsonConfig { server_name_override: Some(n), .. } => n@,
        _ => server.id@,
    }
}

/// Everything `enable_server` promises, by configuration method.
pub open spec fn enable_post(
    m: ConfigMethod,
    server: McpServer,
    text: Option<Seq<char>>,
    r: Result<String, McpError>,
) -> bool {
    match m {
        ConfigMethod::JsonConfig {
            servers_key,
            server_name_override,
            type_value,
            include_tools_field,
            ..
        } => {
            let name = effective_server_name(m, server);
            let tv = match type_value {
                Some(t) => Some(t@),
                None => None,
            };
            &&& (r is Ok <==> json_enables(text))
            &&& (r matches Err(e) ==> e == McpError::ParseError)
            &&& (r matches Ok(out) ==> json_of_text(out@) == Some(
                json_enable_model(
                    json_doc_for_enable(text),
                    servers_key@,
                    name,
                    server.args.deep_view(),
                    tv,
                    include_tools_field,
                ),
            ))
        },
        ConfigMethod::TomlConfig { .. } => {
            &&& (r is Ok <==> (text matches Some(s) ==> toml_of_text(s) is Some))
            &&& (r matches Err(e) ==> e == McpError::ParseError)
            &&& (r matches Ok(out) ==> toml_of_text(out@) == Some(
                toml_enable_model(toml_doc_for_enable(text), server.id@, server.args.deep_view()),
            ))
        },
    }
}

/// Everything `disable_server` promises, by configuration method.
pub open spec fn disable_post(
    m: ConfigMethod,
    server: McpServer,
    text: Option<Seq<char>>,
    r: Result<Option<String>, McpError>,
) -> bool {
    match m {
        ConfigMethod::JsonConfig { servers_key, .. } => {
            let name = effective_server_name(m, server);
            match text {
                None => r matches Ok(o) && o is None,
                Some(s) => match json_of_text(s) {
                    None => r == Err::<Option<String>, McpError>(McpError::ParseError),
                    Some(d) => r matches Ok(Some(out)) && json_of_text(out@) == Some(
                        json_disable_model(d, servers_key@, name),
                    ),
                },
            }
        },
        ConfigMethod::TomlConfig { .. } => {
            match text {
                None => r matches Ok(o) && o is None,
                Some(s) => match toml_of_text(s) {
                    None => r == Err::<Option<String>, McpError>(McpError::ParseError),
                    Some(m0) => r matches Ok(Some(out)) && toml_of_text(out@) == Some(
                        toml_disable_model(m0, server.id@),
                    ),
                },
            }
        },
    }
}

/// What `is_server_enabled` returns, by configuration method: the result is
/// a function of the configuration text alone.
pub open spec fn spec_is_enabled(
    m: ConfigMethod,
    server: McpServer,
    text: Option<Seq<char>>,
) -> Result<bool, McpError> {
    match m {
        ConfigMethod::JsonConfig { servers_key, .. } => {
            let name = effective_server_name(m, server);
            match text {
                None => Ok(false),
                Some(s) => match json_of_text(s) {
                    None => Err(McpError::ParseError),
                    Some(d) => Ok(json_has_server(d, servers_key@, name)),
                },
            }
        },
        ConfigMethod::TomlConfig { .. } => {
            match text {
                None => Ok(false),
                Some(s) => match toml_of_text(s) {
                    None => Err(McpError::ParseError),
                    Some(m0) => Ok(toml_has_server(m0, server.id@)),
                },
            }
        },
    }
}

impl McpTarget {
    /// The config file path for this target.
    pub fn config_path(&self) -> (p: &String)
        ensures
            p@ == spec_config_path(self.config_method),
    {
        match &self.config_method {
            ConfigMethod::JsonConfig { path, .. } => path,
            ConfigMethod::TomlConfig { path } => path,
        }
    }

    /// Enable an MCP server for this target: compute the new text of its
    /// configuration file from the current one (`None` where the file does
    /// not exist).
    pub fn enable_server(&self, server: &McpServer, content: Option<&str>) -> (r: Result<
        String,
        McpError,
    >)
        ensures
            enable_post(self.config_method, *server, text_view(content), r),
    {
        match &self.config_method {
            ConfigMethod::JsonConfig {
                servers_key,
                server_name_override,
                type_value,
                include_tools_field,
                ..
            } => {
                let name: &str = match server_name_override {
                    Some(n) => n.as_str(),
                    None => server.id.as_str(),
                };
                enable_in_json(
                    content,
                    servers_key.as_str(),
                    name,
                    &server.args,
                    type_value.as_ref(),
                    *include_tools_field,
                )
            },
            ConfigMethod::TomlConfig { .. } => {
                enable_in_toml(content, server.id.as_str(), &server.args)
            },
        }
    }

    /// Disable an MCP server for this target: compute the new text of its
    /// configuration file, or `Ok(None)` where the file does not exist and
    /// nothing is to be written.
    pub fn disable_server(&self, server: &McpServer, content: Option<&str>) -> (r: Result<
        Option<String>,
        McpError,
    >)
        ensures
            disable_post(self.config_method, *server, text_view(content), r),
    {
        match &self.config_method {
            ConfigMethod::JsonConfig { servers_key, server_name_override, .. } => {
                let name: &str = match server_name_override {
                    Some(n) => n.as_str(),
                    None => server.id.as_str(),
                };
                disable_in_json(content, servers_key.as_str(), name)
            },
            ConfigMethod::TomlConfig { .. } => disable_in_toml(content, server.id.as_str()),
        }
    }

    /// Whether an MCP server is currently enabled, given the current text of
    /// this target's configuration file.
    pub fn is_server_enabled(&self, server: &McpServer, content: Option<&str>) -> (r: Result<
        bool,
        McpError,
    >)
        ensures
            r == spec_is_enabled(self.config_method, *server, text_view(content)),
    {
        match &self.config_method {
            ConfigMethod::JsonConfig { servers_key, server_name_override, .. } => {
                let name: &str = match server_name_override {
                    Some(n) => n.as_str(),
                    None => server.id.as_str(),
                };
                is_enabled_in_json(content, servers_key.as_str(), name)
            },
            ConfigMethod::TomlConfig { .. } => is_enabled_in_toml(content, server.id.as_str()),
        }
    }
}

/// Whether a target counts as installed, from the three probe outcomes: by
/// default its binary must be on the search path; a tool whose config
/// directory is the stronger signal (cursor) goes by that directory alone; a
/// tool with either signal (copilot, or any text-table tool via its config
/// file) accepts whichever holds.
pub open spec fn spec_installed(
    m: ConfigMethod,
    binary_name: Seq<char>,
    binary_found: bool,
    config_parent_exists: bool,
    config_file_exists: bool,
) -> bool {
    match m {
        ConfigMethod::JsonConfig { .. } => {
            if binary_name == "cursor"@ {
                config_parent_exists
            } else if binary_name == "copilot"@ {
                binary_found || config_parent_exists
            } else {
                binary_found
            }
        },
        ConfigMethod::TomlConfig { .. } => binary_found || config_file_exists,
    }
}

/// Decide whether a target is installed from its probe outcomes: whether its
/// binary was found on the search path, and whether its configuration file's
/// parent directory, and the file itself, exist. The caller performs the
/// probes; the per-target rule is decided here.
pub fn installed_from_probes(
    m: &ConfigMethod,
    binary_name: &str,
    binary_found: bool,
    config_parent_exists: bool,
    config_file_exists: bool,
) -> (r: bool)
    ensures
        r == spec_installed(*m, binary_name@, binary_found, config_parent_exists, config_file_exists),
{
    match m {
        ConfigMethod::JsonConfig { .. } => {
            if str_eq(binary_name, "cursor") {
                config_parent_exists
            } else if str_eq(binary_name, "copilot") {
                binary_found || config_parent_exists
            } else {
                binary_found
            }
        },
        ConfigMethod::TomlConfig { .. } => binary_found || config_file_exists,
    }
}

/// What the "Nova CLI" target looks like.
pub open spec fn nova_cli_spec(t: McpTarget, home: Seq<char>) -> bool {
    &&& t.name@ == "Nova CLI"@
    &&& t.binary_name@ == "nova"@
    &&& t.config_method matches ConfigMethod::JsonConfig {
        path,
        servers_key,
        server_name_override,
        type_value,
        include_tools_field,
    } && path@ == home + "/.nova.json"@ && servers_key@ == "mcpServers"@
        && server_name_override is None && (type_value matches Some(tv) && tv@ == "stdio"@)
        && include_tools_field == false
}

/// What the "Gemini CLI" target looks like.
pub open spec fn gemini_cli_spec(t: McpTarget, home: Seq<char>) -> bool {
    &&& t.name@ == "Gemini CLI"@
    &&& t.binary_name@ == "gemini"@
    &&& t.config_method matches ConfigMethod::JsonConfig {
        path,
        servers_key,
        server_name_override,
        type_value,
        include_tools_field,
    } && path@ == home + "/.gemini/settings.json"@ && servers_key@ == "mcpServers"@
        && server_name_override is None && type_value is None && include_tools_field == false
}

/// What the "Codex CLI" target looks like.
pub open spec fn codex_cli_spec(t: McpTarget, home: Seq<char>) -> bool {
    &&& t.name@ == "Codex CLI"@
    &&& t.binary_name@ == "codex"@
    &&& t.config_method matches ConfigMethod::TomlConfig { path } && path@ == home
        + "/.codex/config.toml"@
}

/// What the "Amp" target looks like.
pub open spec fn amp_spec(t: McpTarget, home: Seq<char>) -> bool {
    &&& t.name@ == "Amp"@
    &&& t.binary_name@ == "amp"@
    &&& t.config_method matches ConfigMethod::JsonConfig {
        path,
        servers_key,
        server_name_override,
        type_value,
        include_tools_field,
    } && path@ == home + "/.config/amp/settings.json"@ && servers_key@ == "amp.mcpServers"@
        && server_name_override is None && type_value is None && include_tools_field == false
}

/// What the "Cursor" target looks like.
pub open spec fn cursor_spec(t: McpTarget, home: Seq<char>) -> bool {
    &&& t.name@ == "Cursor"@
    &&& t.binary_name@ == "cursor"@
    &&& t.config_method matches ConfigMethod::JsonConfig {
        path,
        servers_key,
        server_name_override,
        type_value,
        include_tools_field,
    } && path@ == home + "/.cursor/mcp.json"@ && servers_key@ == "mcpServers"@
        && server_name_override is None && type_value is None && include_tools_field == false
}

/// What the "Copilot CLI" target looks like.
pub open spec fn copilot_cli_spec(t: McpTarget, home: Seq<char>) -> bool {
    &&& t.name@ == "Copilot CLI"@
    &&& t.binary_name@ == "copilot"@
    &&& t.config_method matches ConfigMethod::JsonConfig {
        path,
        servers_key,
        server_name_override,
        type_value,
        include_tools_field,
    } && path@ == home + "/.copilot/mcp-config.json"@ && servers_key@ == "mcpServers"@
        && server_name_override is None && (type_value matches Some(tv) && tv@ == "local"@)
        && include_tools_field == true
}

fn nova_cli(home: &str) -> (t: McpTarget)
    ensures
        nova_cli_spec(t, home@),
{
    McpTarget {
        name: String::from_str("Nova CLI"),
        binary_name: String::from_str("nova"),
        config_method: ConfigMethod::JsonConfig {
            path: String::from_str(home).concat("/.nova.json"),
            servers_key: String::from_str("mcpServers"),
            server_name_override: None,
            type_value: Some(String::from_str("stdio")),
            include_tools_field: false,
        },
    }
}

fn gemini_cli(home: &str) -> (t: McpTarget)
    ensures
        gemini_cli_spec(t, home@),
{
    McpTarget {
        name: String::from_str("Gemini CLI"),
        binary_name: String::from_str("gemini"),
        config_method: ConfigMethod::JsonConfig {
            path: String::from_str(home).concat("/.gemini/settings.json"),
            servers_key: String::from_str("mcpServers"),
            server_name_override: None,
            type_value: None,
            include_tools_field: false,
        },
    }
}

fn codex_cli(home: &str) -> (t: McpTarget)
    ensures
        codex_cli_spec(t, home@),
{
    McpTarget {
        name: String::from_str("Codex CLI"),
        binary_name: String::from_str("codex"),
        config_method: ConfigMethod::TomlConfig {
            path: String::from_str(home).concat("/.codex/config.toml"),
        },
    }
}

fn amp(home: &str) -> (t: McpTarget)
    ensures
        amp_spec(t, home@),
{
    McpTarget {
        name: String::from_str("Amp"),
        binary_name: String::from_str("amp"),
        config_method: ConfigMethod::JsonConfig {
            path: String::from_str(home).concat("/.config/amp/settings.json"),
            servers_key: String::from_str("amp.mcpServers"),
            server_name_override: None,
            type_value: None,
            include_tools_field: false,
        },
    }
}

fn cursor(home: &str) -> (t: McpTarget)
    ensures
        cursor_spec(t, home@),
{
    McpTarget {
        name: String::from_str("Cursor"),
        binary_name: String::from_str("cursor"),
        config_method: ConfigMethod::JsonConfig {
            path: String::from_str(home).concat("/.cursor/mcp.json"),
            servers_key: String::from_str("mcpServers"),
            server_name_override: None,
            type_value: None,
            include_tools_field: false,
        },
    }
}

fn copilot_cli(home: &str) -> (t: McpTarget)
    ensures
        copilot_cli_spec(t, home@),
{
    McpTarget {
        name: String::from_str("Copilot CLI"),
        binary_name: String::from_str("copilot"),
        config_method: ConfigMethod::JsonConfig {
            path: String::from_str(home).concat("/.copilot/mcp-config.json"),
            servers_key: String::from_str("mcpServers"),
            server_name_override: None,
            type_value: Some(String::from_str("local")),
            include_tools_field: true,
        },
    }
}

/// Returns all supported target tools, in their fixed display and iteration
/// order. `home` is the user's home directory, under which every
/// configuration file lives.
pub fn catalog(home: &str) -> (r: Vec<McpTarget>)
    ensures
        r@.len() == 6,
        nova_cli_spec(r@[0], home@),
        gemini_cli_spec(r@[1], home@),
        codex_cli_spec(r@[2], home@),
        amp_spec(r@[3], home@),
        cursor_spec(r@[4], home@),
        copilot_cli_spec(r@[5], home@),
{
    let mut v: Vec<McpTarget> = Vec::new();
    v.push(nova_cli(home));
    v.push(gemini_cli(home));
    v.push(codex_cli(home));
    v.push(amp(home));
    v.push(cursor(home));
    v.push(copilot_cli(home));
    v
}

} // verus!
