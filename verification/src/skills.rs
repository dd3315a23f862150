pub mod actions;
pub mod agents;
pub mod discovery;
