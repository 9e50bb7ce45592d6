//! The capability interface to the outside world: checking the filesystem
//! and running external commands. The process-backed implementation lives
//! with the application; a test double substitutes canned output.

use vstd::prelude::*;

verus! {

/// What came of launching an external command.
#[derive(Debug, Clone)]
pub enum RunOutcome {
    /// The command could not be launched at all.
    SpawnFailed { message: String },
    /// The command ran to completion; `success` is whether it exited with
    /// status zero.
    Completed { success: bool, stdout: String, stderr: String },
}

/// What the external-tool collaborators need from their environment.
pub trait Runner {
    /// Whether a regular file exists at the path.
    fn is_file(&self, path: &str) -> bool;

    /// Whether anything exists at the path.
    fn path_exists(&self, path: &str) -> bool;

    /// Runs the program with the given arguments, optionally in a working
    /// directory, and reports how the launch and the exit went.
    fn run(&self, program: &str, args: &Vec<String>, cwd: Option<&str>) -> RunOutcome;
}

} // verus!
