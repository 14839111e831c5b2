//! Instance registry and lifecycle orchestrator.
//!
//! The library keeps the in-memory registry of managed server instances and
//! sequences the decisions of the lifecycle operations: creation, deletion,
//! cloning, command routing and start/stop resolution. The side effects that
//! the decisions call for (directory creation, artifact download, metadata
//! persistence, command delivery) are carried out by a surrounding runner,
//! which hands their outcomes back to the library.

pub mod collaborators;
pub mod config;
pub mod errors;
pub mod manager;
pub mod plan;
