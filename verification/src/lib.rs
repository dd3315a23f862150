//! Library for managing MCP server configurations across AI command-line
//! tools: a fixed server catalog, a registry of target tools, read-modify-write
//! editing of each target's configuration document (JSON or TOML), a status
//! probe over all (target, server) pairs, and batch enable/disable actions.

pub mod cli;
pub mod strutil;
pub mod jsondoc;
pub mod tomldoc;
pub mod mcp;
pub mod skills;
pub mod tools;
pub mod versions;
