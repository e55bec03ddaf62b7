//! Orchestration core of an editor integration for the CodeQL command-line
//! tool: database selection, construction of tool invocations, interpretation
//! of their outcomes, and a bounded history of past executions.
//!
//! Spawning processes, touching the file system and (de)serialising JSON are
//! left to the caller; everything here is a pure function of plain values.
pub mod commands;
pub mod extension;
pub mod history;
pub mod query;
pub mod tool;
