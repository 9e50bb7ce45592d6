//! Configuration passed into the orchestrator: never ambient global state.

use vstd::prelude::*;

verus! {

/// Where the server listens.
#[derive(Debug, Clone)]
pub struct ServerConfig {
    pub host: String,
    pub port: u16,
}

/// The two root directories of the workspace: manifests and repositories
/// are independent trees keyed by the same project name.
#[derive(Debug, Clone)]
pub struct WorkspaceConfig {
    pub manifests_root: String,
    pub repositories_root: String,
}

/// The whole configuration.
#[derive(Debug, Clone)]
pub struct Config {
    pub server: ServerConfig,
    pub workspace: WorkspaceConfig,
}

} // verus!
