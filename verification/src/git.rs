//! The git collaborator: clone, pull, and the last-commit timestamp,
//! through the runner capability.

use vstd::prelude::*;

use crate::errors::GitError;
use crate::project::GitSource;
use crate::project::Timestamp;
use crate::runner::RunOutcome;
use crate::runner::Runner;
use crate::strings::parse_i64;
use crate::strings::push_dec_i64;
use crate::strings::spec_dec_int;
use crate::strings::spec_parse_i64;
use crate::strings::spec_trim;
use crate::strings::trim;

verus! {

/// The git operations the orchestrator needs. An implementation ties
/// every failure to the source or directory it was asked about.
pub trait GitClient {
    fn clone_repository(&self, source: &GitSource, working_dir: &str) -> (r: Result<(), GitError>)
        ensures
            r matches Err(e) ==> (e matches GitError::CloneFailed { url, .. } && url@
                == source.url@),
    ;

    fn pull_repository(&self, source: &GitSource, working_dir: &str) -> (r: Result<(), GitError>)
        ensures
            r matches Err(e) ==> match e {
                GitError::CloneFailed { url, .. } => url@ == source.url@,
                GitError::PullFailed { path, .. } => path@ == working_dir@,
                _ => false,
            },
    ;

    fn get_last_commit_timestamp(&self, working_dir: &str) -> (r: Result<Timestamp, GitError>)
        ensures
            r matches Err(e) ==> (e matches GitError::GetLastCommitTimestampFailed { path, .. }
                && path@ == working_dir@),
    ;
}

/// Whether the date library can represent a point `secs` non-leap seconds
/// from the Unix epoch.
pub uninterp spec fn chrono_accepts_epoch(secs: int) -> bool;

/// Relies on chrono's `DateTime::<Utc>::from_timestamp`: it returns `Some`
/// exactly on an in-range number of seconds, and depends on its arguments
/// alone; the nanosecond part of zero is always valid.
#[verifier::external_body]
fn epoch_representable(secs: i64) -> (r: bool)
    ensures
        r == chrono_accepts_epoch(secs as int),
{
    chrono::DateTime::<chrono::Utc>::from_timestamp(secs, 0).is_some()
}

/// How `clone` reads the tool's exit.
pub fn interpret_clone_outcome(url: &str, outcome: &RunOutcome) -> (r: Result<(), GitError>)
    ensures
        match outcome {
            RunOutcome::SpawnFailed { message } => r matches Err(
                GitError::CloneFailed { url: u, reason },
            ) && u@ == url@ && reason@ == "Failed to execute git clone command: "@ + message@,
            RunOutcome::Completed { success, stderr, .. } => if *success {
                r is Ok
            } else {
                r matches Err(GitError::CloneFailed { url: u, reason }) && u@ == url@ && reason@
                    == "Git clone failed: "@ + stderr@
            },
        },
{
    match outcome {
        RunOutcome::SpawnFailed { message } => {
            let mut reason = "Failed to execute git clone command: ".to_owned();
            reason.append(message.as_str());
            Err(GitError::CloneFailed { url: url.to_owned(), reason })
        },
        RunOutcome::Completed { success, stderr, .. } => {
            if *success {
                Ok(())
            } else {
                let mut reason = "Git clone failed: ".to_owned();
                reason.append(stderr.as_str());
                Err(GitError::CloneFailed { url: url.to_owned(), reason })
            }
        },
    }
}

/// How `pull` reads the tool's exit.
pub fn interpret_pull_outcome(working_dir: &str, outcome: &RunOutcome) -> (r: Result<(), GitError>)
    ensures
        match outcome {
            RunOutcome::SpawnFailed { message } => r matches Err(
                GitError::PullFailed { path, reason },
            ) && path@ == working_dir@ && reason@ == "Failed to execute git pull command: "@
                + message@,
            RunOutcome::Completed { success, stderr, .. } => if *success {
                r is Ok
            } else {
                r matches Err(GitError::PullFailed { path, reason }) && path@ == working_dir@
                    && reason@ == "Git pull failed: "@ + stderr@
            },
        },
{
    match outcome {
        RunOutcome::SpawnFailed { message } => {
            let mut reason = "Failed to execute git pull command: ".to_owned();
            reason.append(message.as_str());
            Err(GitError::PullFailed { path: working_dir.to_owned(), reason })
        },
        RunOutcome::Completed { success, stderr, .. } => {
            if *success {
                Ok(())
            } else {
                let mut reason = "Git pull failed: ".to_owned();
                reason.append(stderr.as_str());
                Err(GitError::PullFailed { path: working_dir.to_owned(), reason })
            }
        },
    }
}

/// How the timestamp query reads the tool's output: the standard output,
/// trimmed, must parse as epoch seconds that the date library can
/// represent; a non-numeric or missing value is a hard failure, not a
/// default.
pub fn interpret_timestamp_outcome(working_dir: &str, outcome: &RunOutcome) -> (r: Result<
    Timestamp,
    GitError,
>)
    ensures
        match outcome {
            RunOutcome::SpawnFailed { message } => r matches Err(
                GitError::GetLastCommitTimestampFailed { path, reason },
            ) && path@ == working_dir@ && reason@ == "Failed to execute git log command: "@
                + message@,
            RunOutcome::Completed { success, stdout, stderr } => if !*success {
                r matches Err(GitError::GetLastCommitTimestampFailed { path, reason }) && path@
                    == working_dir@ && reason@ == "Git log command failed: "@ + stderr@
            } else {
                match spec_parse_i64(spec_trim(stdout@)) {
                    Some(epoch) => if chrono_accepts_epoch(epoch) {
                        r matches Ok(t) && t.epoch_seconds == epoch
                    } else {
                        r matches Err(GitError::GetLastCommitTimestampFailed { path, reason })
                            && path@ == working_dir@ && reason@ == "Invalid timestamp value: "@
                            + spec_dec_int(epoch)
                    },
                    None => r matches Err(GitError::GetLastCommitTimestampFailed { path, reason })
                        && path@ == working_dir@ && reason@ == "Failed to parse timestamp '"@
                        + spec_trim(stdout@) + "'"@,
                }
            },
        },
{
    match outcome {
        RunOutcome::SpawnFailed { message } => {
            let mut reason = "Failed to execute git log command: ".to_owned();
            reason.append(message.as_str());
            Err(GitError::GetLastCommitTimestampFailed { path: working_dir.to_owned(), reason })
        },
        RunOutcome::Completed { success, stdout, stderr } => {
            if !*success {
                let mut reason = "Git log command failed: ".to_owned();
                reason.append(stderr.as_str());
                return Err(
                    GitError::GetLastCommitTimestampFailed { path: working_dir.to_owned(), reason },
                );
            }
            let t = trim(stdout.as_str());
            match parse_i64(t) {
                None => {
                    let mut reason = "Failed to parse timestamp '".to_owned();
                    reason.append(t);
                    reason.append("'");
                    Err(
                        GitError::GetLastCommitTimestampFailed {
                            path: working_dir.to_owned(),
                            reason,
                        },
                    )
                },
                Some(epoch) => {
                    if epoch_representable(epoch) {
                        Ok(Timestamp { epoch_seconds: epoch })
                    } else {
                        let mut reason = "Invalid timestamp value: ".to_owned();
                        push_dec_i64(&mut reason, epoch);
                        Err(
                            GitError::GetLastCommitTimestampFailed {
                                path: working_dir.to_owned(),
                                reason,
                            },
                        )
                    }
                },
            }
        },
    }
}

/// The arguments of a clone invocation:
/// `clone --branch <branch> <url> <working_dir>`.
fn clone_args(source: &GitSource, working_dir: &str) -> (r: Vec<String>)
    ensures
        r@.len() == 5,
        r@[0]@ == "clone"@,
        r@[1]@ == "--branch"@,
        r@[2]@ == source.branch@,
        r@[3]@ == source.url@,
        r@[4]@ == working_dir@,
{
    let mut args: Vec<String> = Vec::new();
    args.push("clone".to_owned());
    args.push("--branch".to_owned());
    args.push(source.branch.clone());
    args.push(source.url.clone());
    args.push(working_dir.to_owned());
    args
}

/// The arguments of a pull invocation: `pull`, run in the working
/// directory.
fn pull_args() -> (r: Vec<String>)
    ensures
        r@.len() == 1,
        r@[0]@ == "pull"@,
{
    let mut args: Vec<String> = Vec::new();
    args.push("pull".to_owned());
    args
}

/// The arguments of the timestamp query: `log -1 --format=%ct`, run in the
/// working directory.
fn log_timestamp_args() -> (r: Vec<String>)
    ensures
        r@.len() == 3,
        r@[0]@ == "log"@,
        r@[1]@ == "-1"@,
        r@[2]@ == "--format=%ct"@,
{
    let mut args: Vec<String> = Vec::new();
    args.push("log".to_owned());
    args.push("-1".to_owned());
    args.push("--format=%ct".to_owned());
    args
}

/// The git collaborator backed by the external git tool, through a runner
/// capability.
#[derive(Debug, Clone)]
pub struct GitClientImpl<R: Runner> {
    pub runner: R,
}

impl<R: Runner> GitClient for GitClientImpl<R> {
    /// Clones the source's branch into the working directory.
    fn clone_repository(&self, source: &GitSource, working_dir: &str) -> (r: Result<
        (),
        GitError,
    >) {
        let args = clone_args(source, working_dir);
        let outcome = self.runner.run("git", &args, None);
        interpret_clone_outcome(source.url.as_str(), &outcome)
    }

    /// Pulls the working directory, falling back to a clone when it does
    /// not exist yet.
    fn pull_repository(&self, source: &GitSource, working_dir: &str) -> (r: Result<
        (),
        GitError,
    >) {
        if !self.runner.path_exists(working_dir) {
            return self.clone_repository(source, working_dir);
        }
        let args = pull_args();
        let outcome = self.runner.run("git", &args, Some(working_dir));
        interpret_pull_outcome(working_dir, &outcome)
    }

    /// The repository's most recent commit time, in epoch seconds.
    fn get_last_commit_timestamp(&self, working_dir: &str) -> (r: Result<Timestamp, GitError>) {
        let args = log_timestamp_args();
        let outcome = self.runner.run("git", &args, Some(working_dir));
        interpret_timestamp_outcome(working_dir, &outcome)
    }
}

} // verus!
