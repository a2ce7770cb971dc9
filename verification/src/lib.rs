//! Decisions behind bringing up a parachain node.

pub mod aura;
pub mod aura_laws;
pub mod chains;
pub mod code_hash;
pub mod config;
pub mod consensus;
pub mod hardware;
pub mod import_queue;
pub mod inherents;
pub mod node;
pub mod node_conduct;
pub mod node_laws;
pub mod partial;
pub mod partial_laws;
pub mod step;
pub mod tasks;
