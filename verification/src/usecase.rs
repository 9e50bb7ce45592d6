//! The project orchestrator: it validates definitions, derives the on-disk
//! workspace layout from one name consistently, and assembles the enriched
//! read model from what the collaborators report.

use vstd::prelude::*;

use crate::compose::ComposeClient;
use crate::config::WorkspaceConfig;
use crate::errors::ComposeError;
use crate::errors::GfcError;
use crate::errors::GitError;
use crate::errors::ProjectUsecaseError;
use crate::git::GitClient;
use crate::manifest::emit_manifest;
use crate::manifest::parse_manifest;
use crate::manifest::spec_manifest;
use crate::manifest::spec_parse_manifest;
use crate::project::GitSource;
use crate::project::Project;
use crate::project::ProjectFile;
use crate::project::ProjectName;
use crate::project::SpecProjectFile;
use crate::project::spec_name_error;
use crate::project::valid_project_name;
use crate::status::determine_project_status_from;
use crate::strings::is_blank;
use crate::strings::spec_blank;

verus! {

/// One path under a root: `base/name`.
pub open spec fn spec_join(base: Seq<char>, name: Seq<char>) -> Seq<char> {
    base + "/"@ + name
}

/// Joins one path component onto a base path.
pub fn join_path(base: &str, name: &str) -> (r: String)
    ensures
        r@ == spec_join(base@, name@),
{
    let mut out = base.to_owned();
    out.append("/");
    out.append(name);
    proof {
        assert(out@ =~= spec_join(base@, name@));
    }
    out
}

/// Every path that one project occupies, all derived from one name.
#[derive(Debug, Clone)]
pub struct ProjectFileLocations {
    pub manifest_file: String,
    pub manifest_folder: String,
    pub repository_folder: String,
    pub compose_file: String,
}

/// The synchronous part of creating a project: the directories to make,
/// the manifest to write, and where the detached provisioning will work.
#[derive(Debug, Clone)]
pub struct CreationPlan {
    pub locations: ProjectFileLocations,
    pub manifest_contents: String,
}

/// Why a definition is rejected before any I/O, if it is: the name must
/// pass `ProjectName` validation, and url and branch must be non-blank.
pub open spec fn spec_validate_reason(f: SpecProjectFile) -> Option<Seq<char>> {
    match spec_name_error(f.name) {
        Some(msg) => Some(msg),
        None => if spec_blank(f.url) {
            Some("Git URL cannot be empty"@)
        } else if spec_blank(f.branch) {
            Some("Git branch cannot be empty"@)
        } else {
            None
        },
    }
}

/// Validates a definition before any I/O.
pub fn validate_create_project_params(project_file: &ProjectFile) -> (r: Result<
    (),
    ProjectUsecaseError,
>)
    ensures
        match r {
            Ok(_) => spec_validate_reason(project_file@) is None,
            Err(e) => e matches ProjectUsecaseError::CreateProjectFailed { project_name, reason }
                && project_name@ == project_file.name@ && spec_validate_reason(project_file@)
                == Some(reason@),
        },
{
    match ProjectName::new(project_file.name.clone()) {
        Ok(_) => (),
        Err(e) => {
            return Err(
                ProjectUsecaseError::CreateProjectFailed {
                    project_name: project_file.name.clone(),
                    reason: e,
                },
            );
        },
    }
    if is_blank(project_file.source.url.as_str()) {
        return Err(
            ProjectUsecaseError::CreateProjectFailed {
                project_name: project_file.name.clone(),
                reason: "Git URL cannot be empty".to_owned(),
            },
        );
    }
    if is_blank(project_file.source.branch.as_str()) {
        return Err(
            ProjectUsecaseError::CreateProjectFailed {
                project_name: project_file.name.clone(),
                reason: "Git branch cannot be empty".to_owned(),
            },
        );
    }
    Ok(())
}

/// The listing error a failed container-status query maps to: status
/// retrieval is part of discovery, so its failure aborts the whole
/// listing.
pub fn container_status_failure(e: &ComposeError) -> (r: ProjectUsecaseError)
    ensures
        r matches ProjectUsecaseError::ListProjectsFailed { reason } && reason@
            == e.spec_message(),
{
    ProjectUsecaseError::ListProjectsFailed { reason: e.message() }
}

/// The listing error an unavailable git timestamp maps to: the project was
/// discovered, but its repository metadata cannot be read.
pub fn git_timestamp_failure(project_name: &str, e: &GitError) -> (r: ProjectUsecaseError)
    ensures
        r matches ProjectUsecaseError::ProjectNotFound { project_name: n, reason } && n@
            == project_name@ && reason@ == "Git repository information unavailable: "@
            + e.spec_message(),
{
    let mut reason = "Git repository information unavailable: ".to_owned();
    reason.append(e.message().as_str());
    ProjectUsecaseError::ProjectNotFound { project_name: project_name.to_owned(), reason }
}

/// The orchestrator. It owns no state beyond its collaborators and the
/// workspace roots.
#[derive(Debug, Clone)]
pub struct ProjectUsecase<C: ComposeClient, G: GitClient> {
    pub compose_client: C,
    pub git_client: G,
    pub workspace_config: WorkspaceConfig,
}

impl<C: ComposeClient, G: GitClient> ProjectUsecase<C, G> {
    pub fn new(compose_client: C, git_client: G, workspace_config: WorkspaceConfig) -> (r: Self)
        ensures
            r.compose_client == compose_client,
            r.git_client == git_client,
            r.workspace_config == workspace_config,
    {
        ProjectUsecase { compose_client, git_client, workspace_config }
    }

    /// The four paths of one project, derived deterministically from the
    /// workspace roots, the name, and the compose-file path of the source.
    pub fn get_project_file_locations(&self, project_file: &ProjectFile) -> (r:
        ProjectFileLocations)
        ensures
            r.manifest_folder@ == spec_join(
                self.workspace_config.manifests_root@,
                project_file.name@,
            ),
            r.manifest_file@ == spec_join(
                spec_join(self.workspace_config.manifests_root@, project_file.name@),
                "project.yaml"@,
            ),
            r.repository_folder@ == spec_join(
                self.workspace_config.repositories_root@,
                project_file.name@,
            ),
            r.compose_file@ == spec_join(
                spec_join(self.workspace_config.repositories_root@, project_file.name@),
                project_file.source.path@,
            ),
    {
        let manifest_folder = join_path(
            self.workspace_config.manifests_root.as_str(),
            project_file.name.as_str(),
        );
        let manifest_file = join_path(manifest_folder.as_str(), "project.yaml");
        let repository_folder = join_path(
            self.workspace_config.repositories_root.as_str(),
            project_file.name.as_str(),
        );
        let compose_file = join_path(
            repository_folder.as_str(),
            project_file.source.path.as_str(),
        );
        ProjectFileLocations { manifest_file, manifest_folder, repository_folder, compose_file }
    }

    /// The synchronous prefix of creating a project: validation, the
    /// workspace layout, and the serialized manifest. It does no I/O; the
    /// application makes the directories, writes the manifest, and then
    /// runs `provision` without blocking the caller.
    pub fn create_project(&self, project_file: &ProjectFile) -> (r: Result<
        CreationPlan,
        ProjectUsecaseError,
    >)
        ensures
            match r {
                Ok(plan) => spec_validate_reason(project_file@) is None
                    && plan.manifest_contents@ == spec_manifest(project_file@)
                    && plan.locations.manifest_folder@ == spec_join(
                    self.workspace_config.manifests_root@,
                    project_file.name@,
                ) && plan.locations.manifest_file@ == spec_join(
                    spec_join(self.workspace_config.manifests_root@, project_file.name@),
                    "project.yaml"@,
                ) && plan.locations.repository_folder@ == spec_join(
                    self.workspace_config.repositories_root@,
                    project_file.name@,
                ) && plan.locations.compose_file@ == spec_join(
                    spec_join(self.workspace_config.repositories_root@, project_file.name@),
                    project_file.source.path@,
                ),
                Err(e) => e matches ProjectUsecaseError::CreateProjectFailed {
                    project_name,
                    reason,
                } && project_name@ == project_file.name@ && spec_validate_reason(project_file@)
                    == Some(reason@),
            },
    {
        match validate_create_project_params(project_file) {
            Ok(_) => (),
            Err(e) => {
                return Err(e);
            },
        }
        let locations = self.get_project_file_locations(project_file);
        let manifest_contents = emit_manifest(project_file);
        Ok(CreationPlan { locations, manifest_contents })
    }

    /// The detached unit of work: clone the source into the repository
    /// folder, then bring the compose services up. Unlike the caller-facing
    /// prefix its outcome is reported, so the application can retrieve it.
    pub fn provision(&self, source: &GitSource, locations: &ProjectFileLocations) -> (r: Result<
        (),
        GfcError,
    >)
        ensures
            r matches Err(e) ==> match e {
                GfcError::Git(g) => g matches GitError::CloneFailed { url, .. } && url@
                    == source.url@,
                GfcError::Compose(c) => match c {
                    ComposeError::ComposeFileNotFound { path } => path@ == locations.compose_file@,
                    ComposeError::UpFailed { path, .. } => path@ == locations.compose_file@,
                    _ => false,
                },
                _ => false,
            },
    {
        match self.git_client.clone_repository(source, locations.repository_folder.as_str()) {
            Ok(_) => (),
            Err(e) => {
                return Err(GfcError::Git(e));
            },
        }
        match self.compose_client.up(locations.compose_file.as_str()) {
            Ok(_) => Ok(()),
            Err(e) => Err(GfcError::Compose(e)),
        }
    }

    /// Assembles the read model from every discovered manifest: each text
    /// must parse, and each project is enriched with the container status
    /// and the last commit time its collaborators report. One failure
    /// aborts the whole listing: discovery must not silently hide data.
    pub fn list_projects(&self, manifest_texts: &Vec<String>) -> (r: Result<
        Vec<Project>,
        ProjectUsecaseError,
    >)
        ensures
            match r {
                Ok(ps) => ps@.len() == manifest_texts@.len() && forall|i: int|
                    0 <= i < ps@.len() ==> {
                        &&& #[trigger] spec_parse_manifest(manifest_texts@[i]@) is Some
                        &&& ps@[i].name@ == spec_parse_manifest(manifest_texts@[i]@)->0.name
                        &&& valid_project_name(ps@[i].name@)
                        &&& ps@[i].source.url@ == spec_parse_manifest(manifest_texts@[i]@)->0.url
                        &&& ps@[i].source.branch@ == spec_parse_manifest(
                            manifest_texts@[i]@,
                        )->0.branch
                        &&& ps@[i].source.path@ == spec_parse_manifest(manifest_texts@[i]@)->0.path
                    },
                Err(e) => e is ListProjectsFailed || e is ProjectNotFound || e is InvalidPath,
            },
            (exists|i: int|
                0 <= i < manifest_texts@.len() && #[trigger] spec_parse_manifest(
                    manifest_texts@[i]@,
                ) is None) ==> (r matches Err(e) && e is ListProjectsFailed),
            manifest_texts@.len() == 0 ==> (r matches Ok(ps) && ps@.len() == 0),
    {
        let mut files: Vec<ProjectFile> = Vec::new();
        let mut i: usize = 0;
        while i < manifest_texts.len()
            invariant
                i <= manifest_texts@.len(),
                files@.len() == i,
                forall|j: int|
                    0 <= j < i ==> {
                        &&& #[trigger] spec_parse_manifest(manifest_texts@[j]@) is Some
                        &&& files@[j].name@ == spec_parse_manifest(manifest_texts@[j]@)->0.name
                        &&& files@[j].source.url@ == spec_parse_manifest(
                            manifest_texts@[j]@,
                        )->0.url
                        &&& files@[j].source.branch@ == spec_parse_manifest(
                            manifest_texts@[j]@,
                        )->0.branch
                        &&& files@[j].source.path@ == spec_parse_manifest(
                            manifest_texts@[j]@,
                        )->0.path
                    },
            decreases manifest_texts@.len() - i,
        {
            match parse_manifest(manifest_texts[i].as_str()) {
                Some(f) => files.push(f),
                None => {
                    return Err(
                        ProjectUsecaseError::ListProjectsFailed {
                            reason: "Failed to parse project manifest".to_owned(),
                        },
                    );
                },
            }
            i += 1;
        }
        let mut projects: Vec<Project> = Vec::new();
        let mut j: usize = 0;
        while j < files.len()
            invariant
                j <= files@.len(),
                files@.len() == manifest_texts@.len(),
                projects@.len() == j,
                forall|k: int|
                    0 <= k < files@.len() ==> {
                        &&& #[trigger] spec_parse_manifest(manifest_texts@[k]@) is Some
                        &&& files@[k].name@ == spec_parse_manifest(manifest_texts@[k]@)->0.name
                        &&& files@[k].source.url@ == spec_parse_manifest(
                            manifest_texts@[k]@,
                        )->0.url
                        &&& files@[k].source.branch@ == spec_parse_manifest(
                            manifest_texts@[k]@,
                        )->0.branch
                        &&& files@[k].source.path@ == spec_parse_manifest(
                            manifest_texts@[k]@,
                        )->0.path
                    },
                forall|k: int|
                    0 <= k < j ==> {
                        &&& #[trigger] projects@[k].name@ == files@[k].name@
                        &&& valid_project_name(projects@[k].name@)
                        &&& projects@[k].source.url@ == files@[k].source.url@
                        &&& projects@[k].source.branch@ == files@[k].source.branch@
                        &&& projects@[k].source.path@ == files@[k].source.path@
                    },
            decreases files@.len() - j,
        {
            let file = &files[j];
            let locations = self.get_project_file_locations(file);
            let containers = match self.compose_client.list_containers(
                locations.compose_file.as_str(),
            ) {
                Ok(cs) => cs,
                Err(e) => {
                    return Err(container_status_failure(&e));
                },
            };
            let status = determine_project_status_from(&containers);
            let last_updated_at = match self.git_client.get_last_commit_timestamp(
                locations.repository_folder.as_str(),
            ) {
                Ok(t) => t,
                Err(e) => {
                    return Err(git_timestamp_failure(file.name.as_str(), &e));
                },
            };
            let name = match ProjectName::new(file.name.clone()) {
                Ok(n) => n,
                Err(msg) => {
                    return Err(ProjectUsecaseError::InvalidPath { reason: msg });
                },
            };
            let source = GitSource {
                url: file.source.url.clone(),
                branch: file.source.branch.clone(),
                path: file.source.path.clone(),
            };
            projects.push(Project { name, source, status, last_updated_at });
            j += 1;
        }
        Ok(projects)
    }
}

} // verus!
