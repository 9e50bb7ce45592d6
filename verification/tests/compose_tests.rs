use gfc::compose::ComposeClient;
use gfc::compose::DockerComposeClient;
use gfc::compose::container_from_fields;
use gfc::compose::interpret_down_outcome;
use gfc::compose::interpret_ps_outcome;
use gfc::compose::interpret_up_outcome;
use gfc::compose::parse_container_line;
use gfc::compose::parse_container_state;
use gfc::compose::parse_ps_stdout;
use gfc::errors::ComposeError;
use gfc::runner::RunOutcome;
use gfc::runner::Runner;
use gfc::status::ContainerState;

/// A runner over a filesystem with no compose file: asserts that the tool
/// is never invoked.
struct AbsentFileRunner;

impl Runner for AbsentFileRunner {
    fn is_file(&self, _path: &str) -> bool {
        false
    }

    fn path_exists(&self, _path: &str) -> bool {
        false
    }

    fn run(&self, _program: &str, _args: &Vec<String>, _cwd: Option<&str>) -> RunOutcome {
        panic!("the external tool must not be invoked when the compose file is absent");
    }
}

/// A runner whose command always completes with the given output.
struct CannedRunner {
    success: bool,
    stdout: String,
    stderr: String,
}

impl Runner for CannedRunner {
    fn is_file(&self, _path: &str) -> bool {
        true
    }

    fn path_exists(&self, _path: &str) -> bool {
        true
    }

    fn run(&self, _program: &str, _args: &Vec<String>, _cwd: Option<&str>) -> RunOutcome {
        RunOutcome::Completed {
            success: self.success,
            stdout: self.stdout.clone(),
            stderr: self.stderr.clone(),
        }
    }
}

#[test]
fn up_on_a_nonexistent_compose_file_fails_without_invoking_the_tool() {
    let client = DockerComposeClient::new(AbsentFileRunner).unwrap();
    match client.up("/missing/docker-compose.yml") {
        Err(ComposeError::ComposeFileNotFound { path }) => {
            assert_eq!(path, "/missing/docker-compose.yml");
        }
        other => panic!("expected ComposeFileNotFound, got {:?}", other),
    }
}

#[test]
fn down_on_a_nonexistent_compose_file_fails_without_invoking_the_tool() {
    let client = DockerComposeClient::new(AbsentFileRunner).unwrap();
    match client.down("/missing/docker-compose.yml") {
        Err(ComposeError::ComposeFileNotFound { path }) => {
            assert_eq!(path, "/missing/docker-compose.yml");
        }
        other => panic!("expected ComposeFileNotFound, got {:?}", other),
    }
}

#[test]
fn list_containers_on_a_nonexistent_compose_file_fails_without_invoking_the_tool() {
    let client = DockerComposeClient::new(AbsentFileRunner).unwrap();
    match client.list_containers("/missing/docker-compose.yml") {
        Err(ComposeError::ComposeFileNotFound { path }) => {
            assert_eq!(path, "/missing/docker-compose.yml");
        }
        other => panic!("expected ComposeFileNotFound, got {:?}", other),
    }
}

#[test]
fn list_containers_parses_the_tools_json_lines() {
    let stdout = "{\"Name\":\"svc1\",\"State\":\"running\"}\n{\"Name\":\"svc2\",\"State\":\"exited\"}\n";
    let client = DockerComposeClient::new(CannedRunner {
        success: true,
        stdout: stdout.to_string(),
        stderr: String::new(),
    })
    .unwrap();
    let containers = client.list_containers("/w/docker-compose.yml").unwrap();
    assert_eq!(containers.len(), 2);
    assert_eq!(containers[0].name, "svc1");
    assert_eq!(containers[0].state, ContainerState::Running);
    assert_eq!(containers[1].name, "svc2");
    assert_eq!(containers[1].state, ContainerState::Exited);
}

#[test]
fn a_line_missing_the_state_field_fails_naming_the_field() {
    match parse_container_line("{\"Name\":\"svc1\"}", "/w/docker-compose.yml") {
        Err(ComposeError::ListContainersFailed { path, reason }) => {
            assert_eq!(path, "/w/docker-compose.yml");
            assert_eq!(reason, "Missing 'State' field in Docker compose output");
        }
        other => panic!("expected ListContainersFailed, got {:?}", other),
    }
}

#[test]
fn a_line_missing_the_name_field_fails_naming_the_field() {
    match parse_container_line("{\"State\":\"running\"}", "/w/docker-compose.yml") {
        Err(ComposeError::ListContainersFailed { reason, .. }) => {
            assert_eq!(reason, "Missing 'Name' field in Docker compose output");
        }
        other => panic!("expected ListContainersFailed, got {:?}", other),
    }
}

#[test]
fn an_unknown_state_value_fails_the_whole_call() {
    let stdout = "{\"Name\":\"svc1\",\"State\":\"hibernating\"}\n";
    match parse_ps_stdout(stdout, "/w/docker-compose.yml") {
        Err(ComposeError::ListContainersFailed { reason, .. }) => {
            assert_eq!(reason, "Unknown container state: hibernating");
        }
        other => panic!("expected ListContainersFailed, got {:?}", other),
    }
}

#[test]
fn unparsable_json_fails_the_whole_call() {
    match parse_ps_stdout("not json\n", "/w/docker-compose.yml") {
        Err(ComposeError::ListContainersFailed { reason, .. }) => {
            assert_eq!(reason, "Failed to parse Docker compose output");
        }
        other => panic!("expected ListContainersFailed, got {:?}", other),
    }
}

#[test]
fn container_from_fields_builds_a_container_when_both_fields_are_present() {
    let c = container_from_fields(
        Some("svc".to_string()),
        Some("paused".to_string()),
        "/w/docker-compose.yml",
    )
    .unwrap();
    assert_eq!(c.name, "svc");
    assert_eq!(c.state, ContainerState::Paused);
}

#[test]
fn parse_container_state_knows_exactly_the_seven_lowercase_tokens() {
    assert_eq!(parse_container_state("created"), Some(ContainerState::Created));
    assert_eq!(parse_container_state("dead"), Some(ContainerState::Dead));
    assert_eq!(parse_container_state("exited"), Some(ContainerState::Exited));
    assert_eq!(parse_container_state("paused"), Some(ContainerState::Paused));
    assert_eq!(parse_container_state("removing"), Some(ContainerState::Removing));
    assert_eq!(parse_container_state("restarting"), Some(ContainerState::Restarting));
    assert_eq!(parse_container_state("running"), Some(ContainerState::Running));
    assert_eq!(parse_container_state("Running"), None);
    assert_eq!(parse_container_state("stopped"), None);
}

#[test]
fn up_converts_a_nonzero_exit_into_up_failed_with_the_tools_words() {
    let outcome = RunOutcome::Completed {
        success: false,
        stdout: String::new(),
        stderr: "no such service".to_string(),
    };
    match interpret_up_outcome("/w/docker-compose.yml", &outcome) {
        Err(ComposeError::UpFailed { path, reason }) => {
            assert_eq!(path, "/w/docker-compose.yml");
            assert_eq!(reason, "Docker compose up failed: no such service");
        }
        other => panic!("expected UpFailed, got {:?}", other),
    }
}

#[test]
fn down_converts_a_spawn_failure_into_down_failed() {
    let outcome = RunOutcome::SpawnFailed { message: "command not found".to_string() };
    match interpret_down_outcome("/w/docker-compose.yml", &outcome) {
        Err(ComposeError::DownFailed { reason, .. }) => {
            assert_eq!(reason, "Failed to execute docker compose down command: command not found");
        }
        other => panic!("expected DownFailed, got {:?}", other),
    }
}

#[test]
fn ps_ignores_blank_lines_between_containers() {
    let outcome = RunOutcome::Completed {
        success: true,
        stdout: "\n{\"Name\":\"a\",\"State\":\"running\"}\n   \n".to_string(),
        stderr: String::new(),
    };
    let containers = interpret_ps_outcome("/w/docker-compose.yml", &outcome).unwrap();
    assert_eq!(containers.len(), 1);
    assert_eq!(containers[0].name, "a");
}

#[test]
fn up_succeeds_on_a_zero_exit() {
    let outcome =
        RunOutcome::Completed { success: true, stdout: String::new(), stderr: String::new() };
    assert!(interpret_up_outcome("/w/docker-compose.yml", &outcome).is_ok());
}

/// A runner that checks the exact listing command line the collaborator
/// builds.
struct PsArgCheckRunner;

impl Runner for PsArgCheckRunner {
    fn is_file(&self, _path: &str) -> bool {
        true
    }

    fn path_exists(&self, _path: &str) -> bool {
        true
    }

    fn run(&self, program: &str, args: &Vec<String>, cwd: Option<&str>) -> RunOutcome {
        assert_eq!(program, "docker");
        assert_eq!(
            args,
            &vec![
                "compose".to_string(),
                "-f".to_string(),
                "/w/docker-compose.yml".to_string(),
                "ps".to_string(),
                "--all".to_string(),
                "--format".to_string(),
                "json".to_string(),
            ]
        );
        assert!(cwd.is_none());
        RunOutcome::Completed { success: true, stdout: String::new(), stderr: String::new() }
    }
}

#[test]
fn list_containers_invokes_exactly_the_listing_command() {
    let client = DockerComposeClient::new(PsArgCheckRunner).unwrap();
    let containers = client.list_containers("/w/docker-compose.yml").unwrap();
    assert_eq!(containers.len(), 0);
}

/// A runner that checks the exact up command line the collaborator builds.
struct UpArgCheckRunner;

impl Runner for UpArgCheckRunner {
    fn is_file(&self, _path: &str) -> bool {
        true
    }

    fn path_exists(&self, _path: &str) -> bool {
        true
    }

    fn run(&self, program: &str, args: &Vec<String>, cwd: Option<&str>) -> RunOutcome {
        assert_eq!(program, "docker");
        assert_eq!(
            args,
            &vec![
                "compose".to_string(),
                "-f".to_string(),
                "/w/docker-compose.yml".to_string(),
                "up".to_string(),
                "-d".to_string(),
            ]
        );
        assert!(cwd.is_none());
        RunOutcome::Completed { success: true, stdout: String::new(), stderr: String::new() }
    }
}

#[test]
fn up_invokes_exactly_the_detached_up_command() {
    let client = DockerComposeClient::new(UpArgCheckRunner).unwrap();
    assert!(client.up("/w/docker-compose.yml").is_ok());
}

/// A runner that checks the exact down command line the collaborator
/// builds.
struct DownArgCheckRunner;

impl Runner for DownArgCheckRunner {
    fn is_file(&self, _path: &str) -> bool {
        true
    }

    fn path_exists(&self, _path: &str) -> bool {
        true
    }

    fn run(&self, program: &str, args: &Vec<String>, cwd: Option<&str>) -> RunOutcome {
        assert_eq!(program, "docker");
        assert_eq!(
            args,
            &vec![
                "compose".to_string(),
                "-f".to_string(),
                "/w/docker-compose.yml".to_string(),
                "down".to_string(),
            ]
        );
        assert!(cwd.is_none());
        RunOutcome::Completed { success: true, stdout: String::new(), stderr: String::new() }
    }
}

#[test]
fn down_invokes_exactly_the_down_command() {
    let client = DockerComposeClient::new(DownArgCheckRunner).unwrap();
    assert!(client.down("/w/docker-compose.yml").is_ok());
}

#[test]
fn the_first_failing_line_supplies_the_whole_calls_reason() {
    let stdout = "{\"Name\":\"a\"}\n{\"Name\":\"b\",\"State\":\"hibernating\"}\n";
    match parse_ps_stdout(stdout, "/w/docker-compose.yml") {
        Err(ComposeError::ListContainersFailed { reason, .. }) => {
            assert_eq!(reason, "Missing 'State' field in Docker compose output");
        }
        other => panic!("expected ListContainersFailed, got {:?}", other),
    }
}
