pub mod actions;
pub mod config;
pub mod laws;
pub mod servers;
pub mod targets;
