//! Tests of the version comparison, the latest-version response parsers,
//! and the skill helpers.

use ai_cli::skills::actions::parse_repo_url;
use ai_cli::skills::discovery::{parse_frontmatter, SkillError};
use ai_cli::tools::ToolVersion;
use ai_cli::versions::{
    apply_latest_versions, extract_factory_version, is_newer_version, npm_latest_from_json,
};

#[test]
fn newer_version_basic_ordering() {
    assert!(is_newer_version("1.2.3", "1.2.2"));
    assert!(!is_newer_version("1.2.2", "1.2.3"));
    assert!(!is_newer_version("1.2.3", "1.2.3"));
    assert!(is_newer_version("2.0.0", "1.9.9"));
    assert!(!is_newer_version("2.0", "10.0"));
}

#[test]
fn newer_version_handles_prefixes_and_lengths() {
    assert!(is_newer_version("v1.3", "1.2.9"));
    assert!(!is_newer_version("1.2", "v1.2.0"));
    assert!(is_newer_version("1.2.0.1", "1.2"));
}

#[test]
fn newer_version_skips_non_numeric_components() {
    // non-numeric components are dropped, so these compare as [1, 3] vs [1, 2]
    assert!(is_newer_version("1.beta.3", "1.2"));
    assert!(!is_newer_version("not-a-version", "0.0.1"));
}

#[test]
fn npm_latest_parses_dist_tags() {
    let body = r#"{"dist-tags":{"latest":"0.0.357"}}"#;
    assert_eq!(npm_latest_from_json(body).as_deref(), Some("0.0.357"));
}

#[test]
fn npm_latest_rejects_other_shapes() {
    assert!(npm_latest_from_json("not json").is_none());
    assert!(npm_latest_from_json(r#"{"dist-tags":{}}"#).is_none());
    assert!(npm_latest_from_json(r#"{"dist-tags":{"latest":7}}"#).is_none());
    assert!(npm_latest_from_json(r#"{"other":1}"#).is_none());
}

#[test]
fn factory_version_from_install_script() {
    let script = "#!/bin/sh\nset -e\n  VER=\"1.4.2\"\necho install $VER\n";
    assert_eq!(extract_factory_version(script).as_deref(), Some("1.4.2"));
    let single_quoted = "VER='2.0.0'\n";
    assert_eq!(extract_factory_version(single_quoted).as_deref(), Some("2.0.0"));
    assert!(extract_factory_version("#!/bin/sh\necho nothing\n").is_none());
}

#[test]
fn apply_latest_sets_matching_tools_only() {
    let tools = vec![
        ToolVersion::new("Nova CLI").with_installed(Some("1.0.0".to_string())),
        ToolVersion::new("Amp"),
        ToolVersion::new("Unlisted"),
    ];
    let resolved = vec![
        ("Nova CLI".to_string(), Some("1.0.5".to_string())),
        ("Amp".to_string(), None),
        // a later entry for the same name wins
        ("Nova CLI".to_string(), Some("1.0.6".to_string())),
    ];
    let out = apply_latest_versions(tools, &resolved);
    assert_eq!(out[0].latest.as_deref(), Some("1.0.6"));
    assert_eq!(out[0].installed.as_deref(), Some("1.0.0"));
    assert!(out[1].latest.is_none());
    assert!(out[2].latest.is_none());
    assert_eq!(out[2].name, "Unlisted");
}

#[test]
fn frontmatter_parses_name_and_description() {
    let content = "---\nname: my-skill\ndescription: \"Does things\"\n---\n# Body\n";
    let (name, desc) = parse_frontmatter(content).unwrap();
    assert_eq!(name, "my-skill");
    assert_eq!(desc.as_deref(), Some("Does things"));
}

#[test]
fn frontmatter_description_is_optional_and_last_field_wins() {
    let content = "---\nname: first\nname: second\n---\nrest";
    let (name, desc) = parse_frontmatter(content).unwrap();
    assert_eq!(name, "second");
    assert!(desc.is_none());
}

#[test]
fn frontmatter_errors() {
    assert_eq!(
        parse_frontmatter("no markers here"),
        Err(SkillError::NoFrontmatter)
    );
    assert_eq!(
        parse_frontmatter("---\nname: open"),
        Err(SkillError::UnclosedFrontmatter)
    );
    assert_eq!(
        parse_frontmatter("---\ndescription: only\n---\n"),
        Err(SkillError::MissingName)
    );
}

#[test]
fn frontmatter_tolerates_leading_whitespace() {
    let content = "\n\n  ---\nname: padded\n---\n";
    let (name, _) = parse_frontmatter(content).unwrap();
    assert_eq!(name, "padded");
}

#[test]
fn repo_url_forms() {
    assert_eq!(parse_repo_url("https://example.com/x.git").unwrap(), "https://example.com/x.git");
    assert_eq!(parse_repo_url("git@github.com:o/r.git").unwrap(), "git@github.com:o/r.git");
    assert_eq!(parse_repo_url("owner/repo").unwrap(), "https://github.com/owner/repo.git");
    assert_eq!(parse_repo_url("nonsense"), Err(SkillError::InvalidRepoFormat));
}
