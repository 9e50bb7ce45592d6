//! The error taxonomy: every failure carries enough context (path, url,
//! reason) to diagnose without re-running the failing command, and each kind
//! maps to a stable machine-readable code.

use vstd::prelude::*;

verus! {

/// The stable machine-readable code of each error kind.
pub struct ErrorCode;

impl ErrorCode {
    pub const GIT_CLONE_FAILED: &'static str = "1001";

    pub const GIT_PULL_FAILED: &'static str = "1002";

    pub const GIT_GET_LAST_COMMIT_TIMESTAMP_FAILED: &'static str = "1003";

    pub const COMPOSE_UP_FAILED: &'static str = "2001";

    pub const COMPOSE_DOWN_FAILED: &'static str = "2002";

    pub const COMPOSE_LIST_CONTAINERS_FAILED: &'static str = "2003";

    pub const COMPOSE_FILE_NOT_FOUND: &'static str = "2004";

    pub const DOCKER_COMPOSE_UP_FAILED: &'static str = "2101";

    pub const DOCKER_COMPOSE_DOWN_FAILED: &'static str = "2102";

    pub const DOCKER_COMPOSE_LIST_CONTAINERS_FAILED: &'static str = "2103";

    pub const DOCKER_COMPOSE_FILE_NOT_FOUND: &'static str = "2104";

    pub const PROJECT_CREATE_FAILED: &'static str = "3001";

    pub const PROJECT_LIST_FAILED: &'static str = "3002";

    pub const PROJECT_INVALID_PATH: &'static str = "3003";

    pub const PROJECT_FILE_READ_FAILED: &'static str = "3004";

    pub const PROJECT_FILE_PARSE_FAILED: &'static str = "3005";

    pub const PROJECT_NOT_FOUND: &'static str = "3006";
}

/// A failure of the compose collaborator.
#[derive(Debug, Clone)]
pub enum ComposeError {
    UpFailed { path: String, reason: String },
    DownFailed { path: String, reason: String },
    ListContainersFailed { path: String, reason: String },
    ComposeFileNotFound { path: String },
}

impl ComposeError {
    pub open spec fn spec_error_code(self) -> Seq<char> {
        match self {
            ComposeError::UpFailed { .. } => "2001"@,
            ComposeError::DownFailed { .. } => "2002"@,
            ComposeError::ListContainersFailed { .. } => "2003"@,
            ComposeError::ComposeFileNotFound { .. } => "2004"@,
        }
    }

    pub fn error_code(&self) -> (r: &str)
        ensures
            r@ == self.spec_error_code(),
    {
        match self {
            ComposeError::UpFailed { .. } => ErrorCode::COMPOSE_UP_FAILED,
            ComposeError::DownFailed { .. } => ErrorCode::COMPOSE_DOWN_FAILED,
            ComposeError::ListContainersFailed { .. } => ErrorCode::COMPOSE_LIST_CONTAINERS_FAILED,
            ComposeError::ComposeFileNotFound { .. } => ErrorCode::COMPOSE_FILE_NOT_FOUND,
        }
    }

    pub open spec fn spec_message(self) -> Seq<char> {
        match self {
            ComposeError::UpFailed { path, reason } => "Failed to start services in "@ + path@
                + ": "@ + reason@,
            ComposeError::DownFailed { path, reason } => "Failed to stop services in "@ + path@
                + ": "@ + reason@,
            ComposeError::ListContainersFailed { path, reason } => "Failed to list containers in "@
                + path@ + ": "@ + reason@,
            ComposeError::ComposeFileNotFound { path } => "Compose file not found in "@ + path@,
        }
    }

    /// The human-readable description of this failure.
    pub fn message(&self) -> (r: String)
        ensures
            r@ == self.spec_message(),
    {
        match self {
            ComposeError::UpFailed { path, reason } => {
                let mut out = "Failed to start services in ".to_owned();
                out.append(path.as_str());
                out.append(": ");
                out.append(reason.as_str());
                proof {
                    assert(out@ =~= self.spec_message());
                }
                out
            },
            ComposeError::DownFailed { path, reason } => {
                let mut out = "Failed to stop services in ".to_owned();
                out.append(path.as_str());
                out.append(": ");
                out.append(reason.as_str());
                proof {
                    assert(out@ =~= self.spec_message());
                }
                out
            },
            ComposeError::ListContainersFailed { path, reason } => {
                let mut out = "Failed to list containers in ".to_owned();
                out.append(path.as_str());
                out.append(": ");
                out.append(reason.as_str());
                proof {
                    assert(out@ =~= self.spec_message());
                }
                out
            },
            ComposeError::ComposeFileNotFound { path } => {
                let mut out = "Compose file not found in ".to_owned();
                out.append(path.as_str());
                out
            },
        }
    }
}

/// A failure of the container-runtime compose layer; the same shape as
/// `ComposeError`, with codes of its own.
#[derive(Debug, Clone)]
pub enum DockerComposeError {
    UpFailed { path: String, reason: String },
    DownFailed { path: String, reason: String },
    ListContainersFailed { path: String, reason: String },
    ComposeFileNotFound { path: String },
}

impl DockerComposeError {
    pub open spec fn spec_error_code(self) -> Seq<char> {
        match self {
            DockerComposeError::UpFailed { .. } => "2101"@,
            DockerComposeError::DownFailed { .. } => "2102"@,
            DockerComposeError::ListContainersFailed { .. } => "2103"@,
            DockerComposeError::ComposeFileNotFound { .. } => "2104"@,
        }
    }

    pub fn error_code(&self) -> (r: &str)
        ensures
            r@ == self.spec_error_code(),
    {
        match self {
            DockerComposeError::UpFailed { .. } => ErrorCode::DOCKER_COMPOSE_UP_FAILED,
            DockerComposeError::DownFailed { .. } => ErrorCode::DOCKER_COMPOSE_DOWN_FAILED,
            DockerComposeError::ListContainersFailed { .. } => {
                ErrorCode::DOCKER_COMPOSE_LIST_CONTAINERS_FAILED
            },
            DockerComposeError::ComposeFileNotFound { .. } => {
                ErrorCode::DOCKER_COMPOSE_FILE_NOT_FOUND
            },
        }
    }

    pub open spec fn spec_message(self) -> Seq<char> {
        match self {
            DockerComposeError::UpFailed { path, reason } => "Failed to start services in "@
                + path@ + ": "@ + reason@,
            DockerComposeError::DownFailed { path, reason } => "Failed to stop services in "@
                + path@ + ": "@ + reason@,
            DockerComposeError::ListContainersFailed { path, reason } =>
                "Failed to list containers in "@ + path@ + ": "@ + reason@,
            DockerComposeError::ComposeFileNotFound { path } => "Docker Compose file not found in "@
                + path@,
        }
    }

    /// The human-readable description of this failure.
    pub fn message(&self) -> (r: String)
        ensures
            r@ == self.spec_message(),
    {
        match self {
            DockerComposeError::UpFailed { path, reason } => {
                let mut out = "Failed to start services in ".to_owned();
                out.append(path.as_str());
                out.append(": ");
                out.append(reason.as_str());
                proof {
                    assert(out@ =~= self.spec_message());
                }
                out
            },
            DockerComposeError::DownFailed { path, reason } => {
                let mut out = "Failed to stop services in ".to_owned();
                out.append(path.as_str());
                out.append(": ");
                out.append(reason.as_str());
                proof {
                    assert(out@ =~= self.spec_message());
                }
                out
            },
            DockerComposeError::ListContainersFailed { path, reason } => {
                let mut out = "Failed to list containers in ".to_owned();
                out.append(path.as_str());
                out.append(": ");
                out.append(reason.as_str());
                proof {
                    assert(out@ =~= self.spec_message());
                }
                out
            },
            DockerComposeError::ComposeFileNotFound { path } => {
                let mut out = "Docker Compose file not found in ".to_owned();
                out.append(path.as_str());
                out
            },
        }
    }
}

/// A failure of the git collaborator.
#[derive(Debug, Clone)]
pub enum GitError {
    CloneFailed { url: String, reason: String },
    PullFailed { path: String, reason: String },
    GetLastCommitTimestampFailed { path: String, reason: String },
}

impl GitError {
    pub open spec fn spec_error_code(self) -> Seq<char> {
        match self {
            GitError::CloneFailed { .. } => "1001"@,
            GitError::PullFailed { .. } => "1002"@,
            GitError::GetLastCommitTimestampFailed { .. } => "1003"@,
        }
    }

    pub fn error_code(&self) -> (r: &str)
        ensures
            r@ == self.spec_error_code(),
    {
        match self {
            GitError::CloneFailed { .. } => ErrorCode::GIT_CLONE_FAILED,
            GitError::PullFailed { .. } => ErrorCode::GIT_PULL_FAILED,
            GitError::GetLastCommitTimestampFailed { .. } => {
                ErrorCode::GIT_GET_LAST_COMMIT_TIMESTAMP_FAILED
            },
        }
    }

    pub open spec fn spec_message(self) -> Seq<char> {
        match self {
            GitError::CloneFailed { url, reason } => "Failed to clone repository from "@ + url@
                + ": "@ + reason@,
            GitError::PullFailed { path, reason } => "Failed to pull latest changes for "@ + path@
                + ": "@ + reason@,
            GitError::GetLastCommitTimestampFailed { path, reason } =>
                "Failed to get last commit timestamp from "@ + path@ + ": "@ + reason@,
        }
    }

    /// The human-readable description of this failure.
    pub fn message(&self) -> (r: String)
        ensures
            r@ == self.spec_message(),
    {
        match self {
            GitError::CloneFailed { url, reason } => {
                let mut out = "Failed to clone repository from ".to_owned();
                out.append(url.as_str());
                out.append(": ");
                out.append(reason.as_str());
                proof {
                    assert(out@ =~= self.spec_message());
                }
                out
            },
            GitError::PullFailed { path, reason } => {
                let mut out = "Failed to pull latest changes for ".to_owned();
                out.append(path.as_str());
                out.append(": ");
                out.append(reason.as_str());
                proof {
                    assert(out@ =~= self.spec_message());
                }
                out
            },
            GitError::GetLastCommitTimestampFailed { path, reason } => {
                let mut out = "Failed to get last commit timestamp from ".to_owned();
                out.append(path.as_str());
                out.append(": ");
                out.append(reason.as_str());
                proof {
                    assert(out@ =~= self.spec_message());
                }
                out
            },
        }
    }
}

/// A failure of the project orchestrator.
#[derive(Debug, Clone)]
pub enum ProjectUsecaseError {
    CreateProjectFailed { project_name: String, reason: String },
    ListProjectsFailed { reason: String },
    InvalidPath { reason: String },
    ProjectNotFound { project_name: String, reason: String },
    ProjectFileReadFailed { project_name: String, reason: String },
}

impl ProjectUsecaseError {
    pub open spec fn spec_error_code(self) -> Seq<char> {
        match self {
            ProjectUsecaseError::CreateProjectFailed { .. } => "3001"@,
            ProjectUsecaseError::ListProjectsFailed { .. } => "3002"@,
            ProjectUsecaseError::InvalidPath { .. } => "3003"@,
            ProjectUsecaseError::ProjectNotFound { .. } => "3006"@,
            ProjectUsecaseError::ProjectFileReadFailed { .. } => "3004"@,
        }
    }

    pub fn error_code(&self) -> (r: &str)
        ensures
            r@ == self.spec_error_code(),
    {
        match self {
            ProjectUsecaseError::CreateProjectFailed { .. } => ErrorCode::PROJECT_CREATE_FAILED,
            ProjectUsecaseError::ListProjectsFailed { .. } => ErrorCode::PROJECT_LIST_FAILED,
            ProjectUsecaseError::InvalidPath { .. } => ErrorCode::PROJECT_INVALID_PATH,
            ProjectUsecaseError::ProjectNotFound { .. } => ErrorCode::PROJECT_NOT_FOUND,
            ProjectUsecaseError::ProjectFileReadFailed { .. } => {
                ErrorCode::PROJECT_FILE_READ_FAILED
            },
        }
    }

    pub open spec fn spec_message(self) -> Seq<char> {
        match self {
            ProjectUsecaseError::CreateProjectFailed { project_name, reason } =>
                "Failed to create project '"@ + project_name@ + "': "@ + reason@,
            ProjectUsecaseError::ListProjectsFailed { reason } => "Failed to list projects: "@
                + reason@,
            ProjectUsecaseError::InvalidPath { reason } => "Invalid path: "@ + reason@,
            ProjectUsecaseError::ProjectNotFound { project_name, reason } => "Project file '"@
                + project_name@ + "' not found: "@ + reason@,
            ProjectUsecaseError::ProjectFileReadFailed { project_name, reason } =>
                "Failed to read project file '"@ + project_name@ + "': "@ + reason@,
        }
    }

    /// The human-readable description of this failure.
    pub fn message(&self) -> (r: String)
        ensures
            r@ == self.spec_message(),
    {
        match self {
            ProjectUsecaseError::CreateProjectFailed { project_name, reason } => {
                let mut out = "Failed to create project '".to_owned();
                out.append(project_name.as_str());
                out.append("': ");
                out.append(reason.as_str());
                proof {
                    assert(out@ =~= self.spec_message());
                }
                out
            },
            ProjectUsecaseError::ListProjectsFailed { reason } => {
                let mut out = "Failed to list projects: ".to_owned();
                out.append(reason.as_str());
                out
            },
            ProjectUsecaseError::InvalidPath { reason } => {
                let mut out = "Invalid path: ".to_owned();
                out.append(reason.as_str());
                out
            },
            ProjectUsecaseError::ProjectNotFound { project_name, reason } => {
                let mut out = "Project file '".to_owned();
                out.append(project_name.as_str());
                out.append("' not found: ");
                out.append(reason.as_str());
                proof {
                    assert(out@ =~= self.spec_message());
                }
                out
            },
            ProjectUsecaseError::ProjectFileReadFailed { project_name, reason } => {
                let mut out = "Failed to read project file '".to_owned();
                out.append(project_name.as_str());
                out.append("': ");
                out.append(reason.as_str());
                proof {
                    assert(out@ =~= self.spec_message());
                }
                out
            },
        }
    }
}

/// The top-level error a caller of the orchestration surface sees.
#[derive(Debug, Clone)]
pub enum GfcError {
    Git(GitError),
    Compose(ComposeError),
    Project(ProjectUsecaseError),
}

/// An error kind with a stable machine-readable code.
pub trait HasErrorCode {
    fn error_code(&self) -> &str;
}

impl GfcError {
    pub open spec fn spec_error_code(self) -> Seq<char> {
        match self {
            GfcError::Git(e) => e.spec_error_code(),
            GfcError::Compose(e) => e.spec_error_code(),
            GfcError::Project(e) => e.spec_error_code(),
        }
    }

    pub fn error_code(&self) -> (r: &str)
        ensures
            r@ == self.spec_error_code(),
    {
        match self {
            GfcError::Git(e) => e.error_code(),
            GfcError::Compose(e) => e.error_code(),
            GfcError::Project(e) => e.error_code(),
        }
    }

    pub open spec fn spec_message(self) -> Seq<char> {
        match self {
            GfcError::Git(e) => e.spec_message(),
            GfcError::Compose(e) => e.spec_message(),
            GfcError::Project(e) => e.spec_message(),
        }
    }

    /// The human-readable description of this failure.
    pub fn message(&self) -> (r: String)
        ensures
            r@ == self.spec_message(),
    {
        match self {
            GfcError::Git(e) => e.message(),
            GfcError::Compose(e) => e.message(),
            GfcError::Project(e) => e.message(),
        }
    }
}

impl HasErrorCode for GfcError {
    fn error_code(&self) -> &str {
        GfcError::error_code(self)
    }
}

} // verus!
