//! Plugin match orchestration engine for a launcher.
//!
//! A host process accepts free-text queries and shows ranked matches computed
//! by independently compiled plugins. This crate holds the engine that drives
//! that flow: dispatching queries, polling for asynchronous results with
//! stale-request protection, arbitrating single-plugin exclusivity,
//! aggregating per-plugin match lists into one stably grouped row list, and
//! routing a user selection back to the owning plugin.
//!
//! The engine is pure state-transition logic: the host performs the actual
//! plugin calls, window management and process side effects, and feeds the
//! outcomes back in as plain values.

pub mod aggregate;
pub mod config;
pub mod engine;
pub mod laws;
pub mod loader;
pub mod types;
