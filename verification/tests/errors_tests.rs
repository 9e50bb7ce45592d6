use gfc::container::ContainerEvent;
use gfc::container::ContainerEventAction;
use gfc::container::parse_event;
use gfc::errors::ComposeError;
use gfc::errors::DockerComposeError;
use gfc::errors::GfcError;
use gfc::errors::GitError;
use gfc::errors::HasErrorCode;
use gfc::errors::ProjectUsecaseError;
use gfc::response::GenericResponse;

#[test]
fn compose_errors_carry_their_stable_codes() {
    let up = ComposeError::UpFailed { path: "p".to_string(), reason: "r".to_string() };
    let down = ComposeError::DownFailed { path: "p".to_string(), reason: "r".to_string() };
    let list = ComposeError::ListContainersFailed { path: "p".to_string(), reason: "r".to_string() };
    let missing = ComposeError::ComposeFileNotFound { path: "p".to_string() };
    assert_eq!(up.error_code(), "2001");
    assert_eq!(down.error_code(), "2002");
    assert_eq!(list.error_code(), "2003");
    assert_eq!(missing.error_code(), "2004");
}

#[test]
fn git_errors_carry_their_stable_codes() {
    let clone = GitError::CloneFailed { url: "u".to_string(), reason: "r".to_string() };
    let pull = GitError::PullFailed { path: "p".to_string(), reason: "r".to_string() };
    let ts = GitError::GetLastCommitTimestampFailed { path: "p".to_string(), reason: "r".to_string() };
    assert_eq!(clone.error_code(), "1001");
    assert_eq!(pull.error_code(), "1002");
    assert_eq!(ts.error_code(), "1003");
}

#[test]
fn project_errors_carry_their_stable_codes() {
    let create = ProjectUsecaseError::CreateProjectFailed {
        project_name: "n".to_string(),
        reason: "r".to_string(),
    };
    let list = ProjectUsecaseError::ListProjectsFailed { reason: "r".to_string() };
    let path = ProjectUsecaseError::InvalidPath { reason: "r".to_string() };
    let missing = ProjectUsecaseError::ProjectNotFound {
        project_name: "n".to_string(),
        reason: "r".to_string(),
    };
    let read = ProjectUsecaseError::ProjectFileReadFailed {
        project_name: "n".to_string(),
        reason: "r".to_string(),
    };
    assert_eq!(create.error_code(), "3001");
    assert_eq!(list.error_code(), "3002");
    assert_eq!(path.error_code(), "3003");
    assert_eq!(missing.error_code(), "3006");
    assert_eq!(read.error_code(), "3004");
}

#[test]
fn runtime_compose_errors_carry_codes_of_their_own() {
    let up = DockerComposeError::UpFailed { path: "p".to_string(), reason: "r".to_string() };
    let missing = DockerComposeError::ComposeFileNotFound { path: "p".to_string() };
    assert_eq!(up.error_code(), "2101");
    assert_eq!(missing.error_code(), "2104");
}

#[test]
fn the_top_level_error_delegates_its_code_and_message() {
    let e = GfcError::Compose(ComposeError::ComposeFileNotFound { path: "/a/b.yml".to_string() });
    assert_eq!(e.error_code(), "2004");
    assert_eq!(e.message(), "Compose file not found in /a/b.yml");
    let trait_code: &str = HasErrorCode::error_code(&e);
    assert_eq!(trait_code, "2004");
}

#[test]
fn error_messages_carry_path_and_reason() {
    let e = ComposeError::UpFailed {
        path: "/w/docker-compose.yml".to_string(),
        reason: "boom".to_string(),
    };
    assert_eq!(e.message(), "Failed to start services in /w/docker-compose.yml: boom");
    let g = GitError::CloneFailed {
        url: "https://example.com/r.git".to_string(),
        reason: "denied".to_string(),
    };
    assert_eq!(g.message(), "Failed to clone repository from https://example.com/r.git: denied");
    let p = ProjectUsecaseError::ProjectNotFound {
        project_name: "foo".to_string(),
        reason: "gone".to_string(),
    };
    assert_eq!(p.message(), "Project file 'foo' not found: gone");
}

#[test]
fn parse_event_builds_an_event_from_a_known_action() {
    let ev: ContainerEvent = parse_event(
        Some("abc123".to_string()),
        Some("foo-web".to_string()),
        Some("start".to_string()),
    )
    .unwrap();
    assert_eq!(ev.container_id, "abc123");
    assert_eq!(ev.container_name, "foo-web");
    assert_eq!(ev.action, ContainerEventAction::Start);
}

#[test]
fn parse_event_maps_both_health_outcomes_to_one_action() {
    let healthy = parse_event(
        Some("a".to_string()),
        Some("n".to_string()),
        Some("health_status: healthy".to_string()),
    )
    .unwrap();
    let unhealthy = parse_event(
        Some("a".to_string()),
        Some("n".to_string()),
        Some("health_status: unhealthy".to_string()),
    )
    .unwrap();
    assert_eq!(healthy.action, ContainerEventAction::HealthStatus);
    assert_eq!(unhealthy.action, ContainerEventAction::HealthStatus);
}

#[test]
fn parse_event_drops_unknown_actions_and_incomplete_events() {
    assert!(parse_event(None, Some("n".to_string()), Some("start".to_string())).is_none());
    assert!(parse_event(Some("a".to_string()), None, Some("start".to_string())).is_none());
    assert!(parse_event(Some("a".to_string()), Some("n".to_string()), None).is_none());
    assert!(
        parse_event(Some("a".to_string()), Some("n".to_string()), Some("attach".to_string()))
            .is_none()
    );
}

#[test]
fn a_generic_response_carries_exactly_one_of_its_three_fields() {
    let one: GenericResponse<u32> = GenericResponse::result(7);
    assert_eq!(one.result, Some(7));
    assert!(one.results.is_none() && one.error.is_none());

    let many: GenericResponse<u32> = GenericResponse::results(vec![1, 2]);
    assert_eq!(many.results, Some(vec![1, 2]));
    assert!(many.result.is_none() && many.error.is_none());

    let failed: GenericResponse<u32> = GenericResponse::error("boom".to_string());
    assert_eq!(failed.error, Some("boom".to_string()));
    assert!(failed.result.is_none() && failed.results.is_none());
}
