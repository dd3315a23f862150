//! Tests of the orchestration core: the status probe, selector resolution,
//! and the batch enable/disable runs.

use ai_cli::mcp::actions::{
    count_outcomes, probe_matrix, resolve_servers, run_disable, run_enable, ServerStatus,
    TargetOutcome, TargetState,
};
use ai_cli::mcp::config::McpError;
use ai_cli::mcp::servers;
use ai_cli::mcp::targets::{catalog, ConfigMethod, McpTarget};

fn json_target(name: &str) -> McpTarget {
    McpTarget {
        name: name.to_string(),
        binary_name: name.to_string(),
        config_method: ConfigMethod::JsonConfig {
            path: format!("/home/u/.{}.json", name),
            servers_key: "mcpServers".to_string(),
            server_name_override: None,
            type_value: None,
            include_tools_field: false,
        },
    }
}

fn toml_target(name: &str) -> McpTarget {
    McpTarget {
        name: name.to_string(),
        binary_name: name.to_string(),
        config_method: ConfigMethod::TomlConfig { path: format!("/home/u/.{}.toml", name) },
    }
}

#[test]
fn selector_all_resolves_to_catalog() {
    let all = resolve_servers("all").unwrap();
    assert_eq!(all.len(), 2);
    assert_eq!(all[0].id, "linear");
    assert_eq!(all[1].id, "playwright");
}

#[test]
fn selector_single_resolves_to_one_server() {
    let one = resolve_servers("linear").unwrap();
    assert_eq!(one.len(), 1);
    assert_eq!(one[0].id, "linear");
}

#[test]
fn selector_unknown_fails_before_any_state_is_touched() {
    assert_eq!(resolve_servers("not-a-server"), Err(McpError::UnknownServer));
    let targets = vec![json_target("a")];
    let states = vec![TargetState { installed: true, content: None }];
    assert_eq!(run_enable("not-a-server", &targets, &states), Err(McpError::UnknownServer));
}

#[test]
fn batch_isolation_one_fail_one_skip_one_ok() {
    let targets = vec![json_target("broken"), json_target("absent"), json_target("healthy")];
    let states = vec![
        TargetState { installed: true, content: Some("{ not json".to_string()) },
        TargetState { installed: false, content: None },
        TargetState { installed: true, content: None },
    ];
    let outs = run_enable("all", &targets, &states).unwrap();
    assert_eq!(outs.len(), 3);
    assert_eq!(outs[0], TargetOutcome::Failed(McpError::ParseError));
    assert_eq!(outs[1], TargetOutcome::Skipped);
    let healthy_text = match &outs[2] {
        TargetOutcome::Updated(Some(text)) => text.clone(),
        other => panic!("healthy target should be updated, got {:?}", other),
    };
    // the healthy target's file now holds both new server entries
    let servers_list = servers::catalog();
    for s in &servers_list {
        assert_eq!(targets[2].is_server_enabled(s, Some(&healthy_text)), Ok(true));
    }
    let (updated, skipped, failed) = count_outcomes(&outs);
    assert_eq!((updated, skipped, failed), (1, 1, 1));
}

#[test]
fn enable_all_enables_every_catalog_server_per_format() {
    let targets = vec![json_target("j"), toml_target("t")];
    let states = vec![
        TargetState { installed: true, content: None },
        TargetState { installed: true, content: None },
    ];
    let outs = run_enable("all", &targets, &states).unwrap();
    for (t, out) in targets.iter().zip(outs.iter()) {
        let text = match out {
            TargetOutcome::Updated(Some(text)) => text,
            other => panic!("expected update, got {:?}", other),
        };
        for s in servers::catalog() {
            assert_eq!(t.is_server_enabled(&s, Some(text)), Ok(true));
        }
    }
}

#[test]
fn enable_single_leaves_other_servers_alone() {
    let t = json_target("j");
    let targets = vec![t];
    let states = vec![TargetState { installed: true, content: None }];
    let outs = run_enable("linear", &targets, &states).unwrap();
    let text = match &outs[0] {
        TargetOutcome::Updated(Some(text)) => text.clone(),
        other => panic!("expected update, got {:?}", other),
    };
    let linear = servers::find("linear").unwrap();
    let playwright = servers::find("playwright").unwrap();
    assert_eq!(targets[0].is_server_enabled(&linear, Some(&text)), Ok(true));
    assert_eq!(targets[0].is_server_enabled(&playwright, Some(&text)), Ok(false));
}

#[test]
fn disable_run_reports_and_removes() {
    let t = json_target("j");
    let enabled = t.enable_server(&servers::find("linear").unwrap(), None).unwrap();
    let targets = vec![t];
    let states = vec![TargetState { installed: true, content: Some(enabled) }];
    let outs = run_disable("linear", &targets, &states).unwrap();
    let text = match &outs[0] {
        TargetOutcome::Updated(Some(text)) => text.clone(),
        other => panic!("expected update, got {:?}", other),
    };
    let linear = servers::find("linear").unwrap();
    assert_eq!(targets[0].is_server_enabled(&linear, Some(&text)), Ok(false));
}

#[test]
fn disable_run_skips_missing_files() {
    let targets = vec![json_target("j")];
    let states = vec![TargetState { installed: true, content: None }];
    let outs = run_disable("all", &targets, &states).unwrap();
    assert_eq!(outs[0], TargetOutcome::Updated(None));
}

#[test]
fn probe_not_installed_dominates() {
    let targets = catalog("/home/u");
    let servers_list = servers::catalog();
    // every target reports as not installed, whatever its file holds
    let states: Vec<TargetState> = targets
        .iter()
        .map(|_| TargetState { installed: false, content: Some("{ garbage".to_string()) })
        .collect();
    let rows = probe_matrix(&targets, &servers_list, &states);
    assert_eq!(rows.len(), targets.len());
    for row in &rows {
        assert_eq!(row.len(), servers_list.len());
        for st in row {
            assert_eq!(*st, ServerStatus::NotInstalled);
        }
    }
}

#[test]
fn probe_distinguishes_enabled_disabled_unknown() {
    let t = json_target("j");
    let linear = servers::find("linear").unwrap();
    let enabled_text = t.enable_server(&linear, None).unwrap();
    let targets = vec![json_target("j"), json_target("k"), json_target("l")];
    let servers_list = vec![linear];
    let states = vec![
        TargetState { installed: true, content: Some(enabled_text) },
        TargetState { installed: true, content: None },
        TargetState { installed: true, content: Some("{ bad".to_string()) },
    ];
    let rows = probe_matrix(&targets, &servers_list, &states);
    assert_eq!(rows[0][0], ServerStatus::Enabled);
    assert_eq!(rows[1][0], ServerStatus::Disabled);
    assert_eq!(rows[2][0], ServerStatus::Unknown);
}

#[test]
fn count_outcomes_adds_up() {
    let outs = vec![
        TargetOutcome::Updated(Some("x".to_string())),
        TargetOutcome::Updated(None),
        TargetOutcome::Skipped,
        TargetOutcome::Failed(McpError::ParseError),
        TargetOutcome::Skipped,
    ];
    assert_eq!(count_outcomes(&outs), (2, 2, 1));
}
