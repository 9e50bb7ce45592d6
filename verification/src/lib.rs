//! A declarative workspace for container-compose projects.
//!
//! Each project is a Git-hosted repository holding a compose manifest.
//! The library validates project definitions, derives the on-disk layout
//! of the workspace, interprets the output of the external git and compose
//! tools, and reduces container snapshots to a typed project status.

pub mod compose;
pub mod container;
pub mod config;
pub mod errors;
pub mod git;
pub mod manifest;
pub mod ports;
pub mod project;
pub mod response;
pub mod runner;
pub mod status;
pub mod strings;
pub mod usecase;
