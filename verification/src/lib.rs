//! Versioned persistence of project artifacts: the decisions behind every
//! write-then-commit path, stated and proved over plain values.

pub mod attio;
pub mod chat;
pub mod context;
pub mod decisions;
pub mod experiments;
pub mod git;
pub mod procedure;
pub mod projects;
pub mod store;
pub mod text;
pub mod types;
pub mod upload;
pub mod world;
