//! Tests of the fixed registries: servers, targets, agents, tools.

use ai_cli::mcp::servers::{self, McpServer};
use ai_cli::mcp::targets::{self, installed_from_probes, ConfigMethod};
use ai_cli::skills::agents;
use ai_cli::tools::{nova, mistral_vibe, InstallMethod};

#[test]
fn server_catalog_is_fixed() {
    let servers_list = servers::catalog();
    assert_eq!(servers_list.len(), 2);
    assert_eq!(servers_list[0].id, "linear");
    assert_eq!(servers_list[0].name, "Linear");
    assert_eq!(servers_list[0].args, vec!["mcp-remote", "https://mcp.linear.app/mcp"]);
    assert_eq!(servers_list[0].description, "Linear issue tracking integration");
    assert_eq!(servers_list[1].id, "playwright");
    assert_eq!(servers_list[1].name, "Playwright");
    assert_eq!(servers_list[1].args, vec!["@playwright/mcp@latest"]);
    assert_eq!(servers_list[1].description, "Browser automation with Playwright");
}

#[test]
fn server_find_by_id() {
    assert_eq!(servers::find("linear").unwrap().id, "linear");
    assert_eq!(servers::find("playwright").unwrap().id, "playwright");
    assert!(servers::find("nope").is_none());
    assert!(servers::find("Linear").is_none());
}

#[test]
fn server_new_keeps_fields() {
    let s = McpServer::new("id1", "Name", vec!["a".to_string()], "desc");
    assert_eq!(s.id, "id1");
    assert_eq!(s.name, "Name");
    assert_eq!(s.args, vec!["a"]);
    assert_eq!(s.description, "desc");
}

#[test]
fn target_catalog_paths_and_order() {
    let targets = targets::catalog("/home/u");
    assert_eq!(targets.len(), 6);
    let names: Vec<&str> = targets.iter().map(|t| t.name.as_str()).collect();
    assert_eq!(
        names,
        vec!["Nova CLI", "Gemini CLI", "Codex CLI", "Amp", "Cursor", "Copilot CLI"]
    );
    assert_eq!(targets[0].config_path().as_str(), "/home/u/.nova.json");
    assert_eq!(targets[1].config_path().as_str(), "/home/u/.gemini/settings.json");
    assert_eq!(targets[2].config_path().as_str(), "/home/u/.codex/config.toml");
    assert_eq!(targets[3].config_path().as_str(), "/home/u/.config/amp/settings.json");
    assert_eq!(targets[4].config_path().as_str(), "/home/u/.cursor/mcp.json");
    assert_eq!(targets[5].config_path().as_str(), "/home/u/.copilot/mcp-config.json");
}

#[test]
fn target_catalog_config_methods() {
    let targets = targets::catalog("/home/u");
    match &targets[0].config_method {
        ConfigMethod::JsonConfig { servers_key, type_value, include_tools_field, .. } => {
            assert_eq!(servers_key, "mcpServers");
            assert_eq!(type_value.as_deref(), Some("stdio"));
            assert!(!include_tools_field);
        }
        _ => panic!("nova should use the structured format"),
    }
    match &targets[2].config_method {
        ConfigMethod::TomlConfig { path } => assert_eq!(path, "/home/u/.codex/config.toml"),
        _ => panic!("codex should use the text-table format"),
    }
    match &targets[3].config_method {
        ConfigMethod::JsonConfig { servers_key, .. } => assert_eq!(servers_key, "amp.mcpServers"),
        _ => panic!("amp should use the structured format"),
    }
    match &targets[5].config_method {
        ConfigMethod::JsonConfig { type_value, include_tools_field, .. } => {
            assert_eq!(type_value.as_deref(), Some("local"));
            assert!(include_tools_field);
        }
        _ => panic!("copilot should use the structured format"),
    }
}

#[test]
fn installation_rule_per_target() {
    let targets = targets::catalog("/home/u");
    let json = &targets[0].config_method;  // plain structured target
    let cursor = &targets[4].config_method;
    let copilot = &targets[5].config_method;
    let toml = &targets[2].config_method;

    // default: only the binary counts
    assert!(installed_from_probes(json, "nova", true, true, true));
    assert!(!installed_from_probes(json, "nova", false, true, true));
    // cursor: the config directory alone decides
    assert!(installed_from_probes(cursor, "cursor", false, true, false));
    assert!(!installed_from_probes(cursor, "cursor", true, false, true));
    // copilot: binary or config directory
    assert!(installed_from_probes(copilot, "copilot", true, false, false));
    assert!(installed_from_probes(copilot, "copilot", false, true, false));
    assert!(!installed_from_probes(copilot, "copilot", false, false, true));
    // text-table: binary or config file
    assert!(installed_from_probes(toml, "codex", true, false, false));
    assert!(installed_from_probes(toml, "codex", false, false, true));
    assert!(!installed_from_probes(toml, "codex", false, true, false));
}

#[test]
fn agent_catalog_is_fixed() {
    let agents_list = agents::catalog("/home/u");
    assert_eq!(agents_list.len(), 7);
    assert_eq!(agents_list[0].id, "nova");
    assert_eq!(agents_list[0].skills_path, "/home/u/.nova/skills");
    assert_eq!(agents_list[3].name, "Amp");
    assert_eq!(agents_list[3].skills_path, "/home/u/.config/agents/skills");
    assert_eq!(agents_list[6].id, "opencode");
    assert_eq!(agents_list[6].skills_path, "/home/u/.config/opencode/skill");
}

#[test]
fn agent_find_ignores_case_and_returns_the_whole_entry() {
    let a = agents::find("/home/u", "NOVA").unwrap();
    assert_eq!(a.id, "nova");
    assert_eq!(a.name, "Nova CLI");
    assert_eq!(a.binary_name, "nova");
    assert_eq!(a.skills_path, "/home/u/.nova/skills");
    let c = agents::find("/home/u", "CoPilot").unwrap();
    assert_eq!(c.id, "copilot");
    assert_eq!(c.name, "GitHub Copilot");
    assert_eq!(c.skills_path, "/home/u/.copilot/skills");
    assert!(agents::find("/home/u", "unknown").is_none());
}

#[test]
fn tool_definitions() {
    let c = nova::definition();
    assert_eq!(c.name, "Nova CLI");
    match &c.install_method {
        InstallMethod::Bootstrap(u) => assert_eq!(u, "https://nova-cli.dev/install.sh"),
    }
    assert_eq!(c.version_command, vec!["nova", "--version"]);
    assert_eq!(c.binary_name.as_deref(), Some("nova"));
    assert!(c.config_dir.is_none());

    let v = mistral_vibe::definition();
    assert_eq!(v.name, "Mistral Vibe");
    match &v.install_method {
        InstallMethod::Bootstrap(u) => assert_eq!(u, "https://mistral.ai/vibe/install.sh"),
    }
    assert_eq!(v.version_command, vec!["vibe", "--version"]);
    assert_eq!(v.binary_name.as_deref(), Some("vibe"));
    assert_eq!(v.config_dir.as_deref(), Some(".vibe"));
}

#[test]
fn tool_installed_versions_from_raw_output() {
    let c = nova::installed_version(Some("1.0.128 (Nova CLI)\nextra line".to_string()));
    assert_eq!(c.name, "Nova CLI");
    assert_eq!(c.identifier.as_deref(), Some("nova"));
    assert_eq!(c.installed.as_deref(), Some("1.0.128"));
    assert!(c.latest.is_none());

    assert!(nova::installed_version(None).installed.is_none());
    assert!(nova::installed_version(Some(String::new())).installed.is_none());

    let v = mistral_vibe::installed_version(Some("2.1.0".to_string()));
    assert_eq!(v.installed.as_deref(), Some("2.1.0"));
    assert_eq!(v.identifier.as_deref(), Some("vibe"));
    assert!(mistral_vibe::installed_version(None).installed.is_none());
}
