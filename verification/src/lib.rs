//! Host library for sandboxed provider plugins.
//!
//! The host discovers plugin artifacts in a directory, registers one slot per
//! plugin, lazily instantiates each plugin inside an isolated execution
//! context, serializes access to a running instance through a bounded command
//! queue, bounds call time with a preemption clock, and aggregates results
//! across all loaded plugins while tolerating partial failure.

pub mod artifacts;
pub mod clock;
pub mod commands;
pub mod config;
pub mod engine;
pub mod manager;
pub mod resolver;
pub mod slot;
pub mod text;
