use gfc::config::WorkspaceConfig;
use gfc::errors::ComposeError;
use gfc::errors::GitError;
use gfc::project::GitSource;
use gfc::project::ProjectFile;
use gfc::project::ProjectName;
use gfc::project::Timestamp;
use gfc::status::Container;
use gfc::usecase::ProjectUsecase;
use gfc::usecase::validate_create_project_params;

struct NoCompose;

impl gfc::compose::ComposeClient for NoCompose {
    fn up(&self, _compose_file_path: &str) -> Result<(), ComposeError> {
        panic!("the compose tool must not be invoked");
    }

    fn down(&self, _compose_file_path: &str) -> Result<(), ComposeError> {
        panic!("the compose tool must not be invoked");
    }

    fn list_containers(&self, _compose_file_path: &str) -> Result<Vec<Container>, ComposeError> {
        panic!("the compose tool must not be invoked");
    }
}

struct NoGit;

impl gfc::git::GitClient for NoGit {
    fn clone_repository(&self, _source: &GitSource, _working_dir: &str) -> Result<(), GitError> {
        panic!("the git tool must not be invoked");
    }

    fn pull_repository(&self, _source: &GitSource, _working_dir: &str) -> Result<(), GitError> {
        panic!("the git tool must not be invoked");
    }

    fn get_last_commit_timestamp(&self, _working_dir: &str) -> Result<Timestamp, GitError> {
        panic!("the git tool must not be invoked");
    }
}

fn create_mock_usecase() -> ProjectUsecase<NoCompose, NoGit> {
    ProjectUsecase::new(
        NoCompose,
        NoGit,
        WorkspaceConfig {
            manifests_root: "/workspace/projects".to_string(),
            repositories_root: "/workspace/repos".to_string(),
        },
    )
}

#[test]
fn given_standard_project_file_when_getting_locations_then_return_correct_paths() {
    let usecase = create_mock_usecase();
    let project_file = ProjectFile {
        name: "test-project".to_string(),
        source: GitSource {
            url: "https://github.com/example/repo.git".to_string(),
            branch: "main".to_string(),
            path: "docker-compose.yml".to_string(),
        },
    };
    let result = usecase.get_project_file_locations(&project_file);

    assert_eq!(result.manifest_folder, "/workspace/projects/test-project");
    assert_eq!(result.manifest_file, "/workspace/projects/test-project/project.yaml");
    assert_eq!(result.repository_folder, "/workspace/repos/test-project");
    assert_eq!(result.compose_file, "/workspace/repos/test-project/docker-compose.yml");
}

#[test]
fn given_project_with_custom_compose_path_when_getting_locations_then_return_correct_custom_paths()
{
    let usecase = create_mock_usecase();
    let project_file = ProjectFile {
        name: "custom-project".to_string(),
        source: GitSource {
            url: "https://github.com/example/repo.git".to_string(),
            branch: "main".to_string(),
            path: "deploy/compose.yaml".to_string(),
        },
    };
    let result = usecase.get_project_file_locations(&project_file);

    assert_eq!(result.manifest_folder, "/workspace/projects/custom-project");
    assert_eq!(result.manifest_file, "/workspace/projects/custom-project/project.yaml");
    assert_eq!(result.repository_folder, "/workspace/repos/custom-project");
    assert_eq!(result.compose_file, "/workspace/repos/custom-project/deploy/compose.yaml");
}

#[test]
fn given_valid_project_params_when_validating_then_return_success() {
    let project_file = ProjectFile {
        name: "valid-project".to_string(),
        source: GitSource {
            url: "https://github.com/example/repo.git".to_string(),
            branch: "main".to_string(),
            path: "docker-compose.yml".to_string(),
        },
    };

    assert!(validate_create_project_params(&project_file).is_ok());
}

#[test]
fn given_empty_git_url_when_validating_project_params_then_return_error() {
    let project_file = ProjectFile {
        name: "test-project".to_string(),
        source: GitSource {
            url: "".to_string(),
            branch: "main".to_string(),
            path: "docker-compose.yml".to_string(),
        },
    };

    assert!(validate_create_project_params(&project_file).is_err());
}

#[test]
fn project_name_rejects_empty_overlong_and_hazardous_names() {
    assert!(ProjectName::new("".to_string()).is_err());
    assert!(ProjectName::new("a/b".to_string()).is_err());
    assert!(ProjectName::new("x".repeat(101)).is_err());
    assert!(ProjectName::new("x".repeat(100)).is_ok());
}

#[test]
fn project_name_accepts_any_non_empty_hazard_free_name() {
    let name = ProjectName::new("   ".to_string()).unwrap();
    assert_eq!(name.as_str(), "   ");
}

#[test]
fn project_name_round_trips_a_valid_name() {
    let name = ProjectName::new("valid-name".to_string()).unwrap();
    assert_eq!(name.as_str(), "valid-name");
    assert_eq!(name.into_inner(), "valid-name");
}

#[test]
fn project_name_reports_why_a_name_is_rejected() {
    assert_eq!(
        ProjectName::new("".to_string()).unwrap_err(),
        "Project name cannot be empty"
    );
    assert_eq!(
        ProjectName::new("x".repeat(101)).unwrap_err(),
        "Project name cannot exceed 100 characters"
    );
    assert_eq!(
        ProjectName::new("a:b".to_string()).unwrap_err(),
        "Project name contains invalid characters"
    );
}
