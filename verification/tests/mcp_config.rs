//! Tests of the config adapter: enable / disable / is-enabled on JSON and
//! TOML configuration texts.

use ai_cli::mcp::config::McpError;
use ai_cli::mcp::servers;
use ai_cli::mcp::targets::{ConfigMethod, McpTarget};

fn json_target() -> McpTarget {
    McpTarget {
        name: "Nova CLI".to_string(),
        binary_name: "nova".to_string(),
        config_method: ConfigMethod::JsonConfig {
            path: "/home/u/.nova.json".to_string(),
            servers_key: "mcpServers".to_string(),
            server_name_override: None,
            type_value: Some("stdio".to_string()),
            include_tools_field: false,
        },
    }
}

fn plain_json_target() -> McpTarget {
    McpTarget {
        name: "Gemini CLI".to_string(),
        binary_name: "gemini".to_string(),
        config_method: ConfigMethod::JsonConfig {
            path: "/home/u/.gemini/settings.json".to_string(),
            servers_key: "mcpServers".to_string(),
            server_name_override: None,
            type_value: None,
            include_tools_field: false,
        },
    }
}

fn copilot_target() -> McpTarget {
    McpTarget {
        name: "Copilot CLI".to_string(),
        binary_name: "copilot".to_string(),
        config_method: ConfigMethod::JsonConfig {
            path: "/home/u/.copilot/mcp-config.json".to_string(),
            servers_key: "mcpServers".to_string(),
            server_name_override: None,
            type_value: Some("local".to_string()),
            include_tools_field: true,
        },
    }
}

fn toml_target() -> McpTarget {
    McpTarget {
        name: "Codex CLI".to_string(),
        binary_name: "codex".to_string(),
        config_method: ConfigMethod::TomlConfig { path: "/home/u/.codex/config.toml".to_string() },
    }
}

fn linear() -> ai_cli::mcp::servers::McpServer {
    servers::find("linear").unwrap()
}

fn playwright() -> ai_cli::mcp::servers::McpServer {
    servers::find("playwright").unwrap()
}

fn parse(s: &str) -> serde_json::Value {
    serde_json::from_str(s).unwrap()
}

#[test]
fn enable_creates_json_entry() {
    let t = json_target();
    let out = t.enable_server(&linear(), None).unwrap();
    let v = parse(&out);
    let entry = v.get("mcpServers").unwrap().get("linear").unwrap();
    assert_eq!(entry.get("command").unwrap().as_str(), Some("npx"));
    let args: Vec<&str> =
        entry.get("args").unwrap().as_array().unwrap().iter().map(|a| a.as_str().unwrap()).collect();
    assert_eq!(args, vec!["mcp-remote", "https://mcp.linear.app/mcp"]);
    assert_eq!(entry.get("type").unwrap().as_str(), Some("stdio"));
    assert!(entry.get("env").unwrap().as_object().unwrap().is_empty());
    assert!(entry.get("tools").is_none());
}

#[test]
fn enable_without_type_field() {
    let t = plain_json_target();
    let out = t.enable_server(&playwright(), None).unwrap();
    let v = parse(&out);
    let entry = v.get("mcpServers").unwrap().get("playwright").unwrap();
    assert_eq!(entry.get("command").unwrap().as_str(), Some("npx"));
    assert!(entry.get("type").is_none());
    assert!(entry.get("env").is_none());
}

#[test]
fn enable_with_tools_field() {
    let t = copilot_target();
    let out = t.enable_server(&linear(), None).unwrap();
    let v = parse(&out);
    let entry = v.get("mcpServers").unwrap().get("linear").unwrap();
    assert_eq!(entry.get("type").unwrap().as_str(), Some("local"));
    assert!(entry.get("env").is_none());
    let tools: Vec<&str> = entry
        .get("tools")
        .unwrap()
        .as_array()
        .unwrap()
        .iter()
        .map(|a| a.as_str().unwrap())
        .collect();
    assert_eq!(tools, vec!["*"]);
}

#[test]
fn enable_uses_server_name_override() {
    let t = McpTarget {
        name: "X".to_string(),
        binary_name: "x".to_string(),
        config_method: ConfigMethod::JsonConfig {
            path: "/tmp/x.json".to_string(),
            servers_key: "mcpServers".to_string(),
            server_name_override: Some("Playwright".to_string()),
            type_value: None,
            include_tools_field: false,
        },
    };
    let out = t.enable_server(&playwright(), None).unwrap();
    let v = parse(&out);
    assert!(v.get("mcpServers").unwrap().get("Playwright").is_some());
    assert!(v.get("mcpServers").unwrap().get("playwright").is_none());
    assert_eq!(t.is_server_enabled(&playwright(), Some(&out)), Ok(true));
}

#[test]
fn enable_is_idempotent_json() {
    let t = json_target();
    let once = t.enable_server(&linear(), None).unwrap();
    let twice = t.enable_server(&linear(), Some(&once)).unwrap();
    assert_eq!(parse(&once), parse(&twice));
    assert_eq!(t.is_server_enabled(&linear(), Some(&once)), Ok(true));
    assert_eq!(t.is_server_enabled(&linear(), Some(&twice)), Ok(true));
}

#[test]
fn enable_preserves_unrelated_json_content() {
    let t = json_target();
    let existing = r#"{"foo": "bar", "mcpServers": {"other": {"command": "keepme", "args": [1, 2]}}}"#;
    let out = t.enable_server(&linear(), Some(existing)).unwrap();
    let v = parse(&out);
    assert_eq!(v.get("foo").unwrap().as_str(), Some("bar"));
    let other = v.get("mcpServers").unwrap().get("other").unwrap();
    assert_eq!(other, parse(existing).get("mcpServers").unwrap().get("other").unwrap());
    assert!(v.get("mcpServers").unwrap().get("linear").is_some());

    let after_disable = t.disable_server(&linear(), Some(&out)).unwrap().unwrap();
    let v2 = parse(&after_disable);
    assert_eq!(v2.get("foo").unwrap().as_str(), Some("bar"));
    assert_eq!(v2.get("mcpServers").unwrap().get("other").unwrap(), other);
    assert!(v2.get("mcpServers").unwrap().get("linear").is_none());
}

#[test]
fn disable_of_absent_is_noop() {
    let t = json_target();
    // no configuration file at all
    assert_eq!(t.disable_server(&linear(), None), Ok(None));
    // a file that does not hold the server
    let existing = r#"{"mcpServers": {"other": {"command": "x"}}, "keep": 7}"#;
    let out = t.disable_server(&linear(), Some(existing)).unwrap().unwrap();
    assert_eq!(parse(&out), parse(existing));
}

#[test]
fn round_trip_json() {
    let t = json_target();
    assert_eq!(t.is_server_enabled(&linear(), None), Ok(false));
    let enabled = t.enable_server(&linear(), None).unwrap();
    assert_eq!(t.is_server_enabled(&linear(), Some(&enabled)), Ok(true));
    let disabled = t.disable_server(&linear(), Some(&enabled)).unwrap().unwrap();
    assert_eq!(t.is_server_enabled(&linear(), Some(&disabled)), Ok(false));
}

#[test]
fn parse_failure_propagates_json() {
    let t = json_target();
    let bad = "{ this is not json";
    assert_eq!(t.enable_server(&linear(), Some(bad)), Err(McpError::ParseError));
    assert_eq!(t.disable_server(&linear(), Some(bad)), Err(McpError::ParseError));
    assert_eq!(t.is_server_enabled(&linear(), Some(bad)), Err(McpError::ParseError));
}

#[test]
fn enable_rejects_non_object_document() {
    let t = json_target();
    // valid JSON, but not a configuration object: never overwritten
    assert_eq!(t.enable_server(&linear(), Some("[1, 2, 3]")), Err(McpError::ParseError));
    // disabling and probing such a file still work without touching it
    let out = t.disable_server(&linear(), Some("[1, 2, 3]")).unwrap().unwrap();
    assert_eq!(parse(&out), parse("[1, 2, 3]"));
    assert_eq!(t.is_server_enabled(&linear(), Some("[1, 2, 3]")), Ok(false));
}

#[test]
fn enable_replaces_non_object_servers_value() {
    let t = json_target();
    let existing = r#"{"mcpServers": 5, "keep": true}"#;
    let out = t.enable_server(&linear(), Some(existing)).unwrap();
    let v = parse(&out);
    assert!(v.get("mcpServers").unwrap().get("linear").is_some());
    assert_eq!(v.get("keep").unwrap().as_bool(), Some(true));
}

#[test]
fn enable_creates_toml_entry() {
    let t = toml_target();
    let out = t.enable_server(&linear(), None).unwrap();
    let doc: toml_edit::DocumentMut = out.parse().unwrap();
    let entry = doc.get("mcp_servers").unwrap().as_table().unwrap().get("linear").unwrap();
    let entry = entry.as_table().unwrap();
    assert_eq!(entry.get("command").unwrap().as_str(), Some("npx"));
    let args: Vec<&str> = entry
        .get("args")
        .unwrap()
        .as_array()
        .unwrap()
        .iter()
        .map(|a| a.as_str().unwrap())
        .collect();
    assert_eq!(args, vec!["mcp-remote", "https://mcp.linear.app/mcp"]);
}

#[test]
fn enable_is_idempotent_toml() {
    let t = toml_target();
    let once = t.enable_server(&linear(), None).unwrap();
    let twice = t.enable_server(&linear(), Some(&once)).unwrap();
    assert_eq!(once, twice);
    assert_eq!(t.is_server_enabled(&linear(), Some(&twice)), Ok(true));
}

#[test]
fn toml_preserves_comments_and_unrelated_tables() {
    let t = toml_target();
    let existing = "# keep this comment\nmodel = \"gpt\"\n\n[other]\nkey = 1\n";
    let out = t.enable_server(&linear(), Some(existing)).unwrap();
    assert!(out.contains("# keep this comment"));
    assert!(out.contains("model = \"gpt\""));
    let doc: toml_edit::DocumentMut = out.parse().unwrap();
    assert_eq!(doc.get("other").unwrap().as_table().unwrap().get("key").unwrap().as_integer(), Some(1));
    assert!(doc.get("mcp_servers").unwrap().as_table().unwrap().contains_key("linear"));
}

#[test]
fn toml_enable_replaces_entry_whole() {
    let t = toml_target();
    let existing = "[mcp_servers.linear]\ncommand = \"old\"\nextra = \"stale\"\n";
    let out = t.enable_server(&linear(), Some(existing)).unwrap();
    let doc: toml_edit::DocumentMut = out.parse().unwrap();
    let entry = doc["mcp_servers"]["linear"].as_table().unwrap();
    assert_eq!(entry.get("command").unwrap().as_str(), Some("npx"));
    // the sub-entry is replaced by exactly the launch descriptor
    assert!(entry.get("extra").is_none());
    assert_eq!(entry.len(), 2);
}

#[test]
fn toml_enable_replaces_inline_table_entry() {
    let t = toml_target();
    let existing = "mcp_servers = { linear = { command = \"old\" } }\n";
    let out = t.enable_server(&linear(), Some(existing)).unwrap();
    assert_eq!(t.is_server_enabled(&linear(), Some(&out)), Ok(true));
    let doc: toml_edit::DocumentMut = out.parse().unwrap();
    let entry = doc["mcp_servers"]["linear"].as_table().unwrap();
    assert_eq!(entry.get("command").unwrap().as_str(), Some("npx"));
    assert!(entry.get("extra").is_none());
}

#[test]
fn round_trip_toml() {
    let t = toml_target();
    assert_eq!(t.is_server_enabled(&playwright(), None), Ok(false));
    let enabled = t.enable_server(&playwright(), None).unwrap();
    assert_eq!(t.is_server_enabled(&playwright(), Some(&enabled)), Ok(true));
    let disabled = t.disable_server(&playwright(), Some(&enabled)).unwrap().unwrap();
    assert_eq!(t.is_server_enabled(&playwright(), Some(&disabled)), Ok(false));
}

#[test]
fn parse_failure_propagates_toml() {
    let t = toml_target();
    let bad = "[unclosed";
    assert_eq!(t.enable_server(&linear(), Some(bad)), Err(McpError::ParseError));
    assert_eq!(t.disable_server(&linear(), Some(bad)), Err(McpError::ParseError));
    assert_eq!(t.is_server_enabled(&linear(), Some(bad)), Err(McpError::ParseError));
}

#[test]
fn disable_of_absent_is_noop_toml() {
    let t = toml_target();
    assert_eq!(t.disable_server(&linear(), None), Ok(None));
    let existing = "# comment\n[mcp_servers.other]\ncommand = \"x\"\n";
    let out = t.disable_server(&linear(), Some(existing)).unwrap().unwrap();
    assert!(out.contains("# comment"));
    let doc: toml_edit::DocumentMut = out.parse().unwrap();
    assert!(doc["mcp_servers"].as_table().unwrap().contains_key("other"));
}
