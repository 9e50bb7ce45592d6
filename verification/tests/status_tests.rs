use gfc::status::Container;
use gfc::status::ContainerState;
use gfc::status::ProjectStatus;
use gfc::status::determine_project_status_from;

fn make_container(name: &str, state: ContainerState) -> Container {
    Container { name: name.to_string(), state }
}

#[test]
fn given_two_running_containers_when_determine_project_status_then_return_running_two_out_of_two() {
    let containers = vec![
        make_container("service1", ContainerState::Running),
        make_container("service2", ContainerState::Running),
    ];

    let actual = determine_project_status_from(&containers);

    assert_eq!(
        actual,
        ProjectStatus::Running {
            active_containers: 2,
            total_containers: 2
        }
    );
}

#[test]
fn given_one_running_and_one_exited_container_when_determine_project_status_then_return_partially_running(
) {
    let containers = vec![
        make_container("service1", ContainerState::Running),
        make_container("service2", ContainerState::Exited),
    ];

    let actual = determine_project_status_from(&containers);

    assert_eq!(
        actual,
        ProjectStatus::PartiallyRunning {
            active_containers: 1,
            total_containers: 2
        }
    );
}

#[test]
fn given_all_exited_containers_when_determine_project_status_then_return_stopped() {
    let containers = vec![
        make_container("service1", ContainerState::Exited),
        make_container("service2", ContainerState::Exited),
    ];

    let actual = determine_project_status_from(&containers);

    assert_eq!(actual, ProjectStatus::Stopped);
}

#[test]
fn given_empty_container_list_when_determine_project_status_then_return_unknown() {
    let containers: Vec<Container> = vec![];
    let actual = determine_project_status_from(&containers);
    assert_eq!(actual, ProjectStatus::Unknown);
}

#[test]
fn given_three_mixed_containers_when_determine_project_status_then_return_partially_running_two_out_of_three(
) {
    let containers = vec![
        make_container("service1", ContainerState::Running),
        make_container("service2", ContainerState::Exited),
        make_container("service3", ContainerState::Running),
    ];

    let actual = determine_project_status_from(&containers);

    assert_eq!(
        actual,
        ProjectStatus::PartiallyRunning {
            active_containers: 2,
            total_containers: 3
        }
    );
}

#[test]
fn from_container_counts_maps_each_count_pair_to_its_status() {
    assert_eq!(ProjectStatus::from_container_counts(0, 0), ProjectStatus::Unknown);
    assert_eq!(ProjectStatus::from_container_counts(0, 3), ProjectStatus::Stopped);
    assert_eq!(
        ProjectStatus::from_container_counts(3, 3),
        ProjectStatus::Running { active_containers: 3, total_containers: 3 }
    );
    assert_eq!(
        ProjectStatus::from_container_counts(1, 3),
        ProjectStatus::PartiallyRunning { active_containers: 1, total_containers: 3 }
    );
}

#[test]
fn display_string_renders_each_status() {
    assert_eq!(
        ProjectStatus::Running { active_containers: 2, total_containers: 2 }.display_string(),
        "Running (2/2)"
    );
    assert_eq!(ProjectStatus::Stopped.display_string(), "Exited");
    assert_eq!(
        ProjectStatus::PartiallyRunning { active_containers: 12, total_containers: 30 }
            .display_string(),
        "Partially Running (12/30)"
    );
    assert_eq!(ProjectStatus::CreationInProgress.display_string(), "Creating...");
    assert_eq!(
        ProjectStatus::DeploymentFailed { reason: "no image".to_string() }.display_string(),
        "Failed: no image"
    );
    assert_eq!(ProjectStatus::Unknown.display_string(), "Unknown");
}

#[test]
fn container_state_to_string_gives_the_lowercase_token() {
    assert_eq!(ContainerState::Created.to_string(), "created");
    assert_eq!(ContainerState::Dead.to_string(), "dead");
    assert_eq!(ContainerState::Exited.to_string(), "exited");
    assert_eq!(ContainerState::Paused.to_string(), "paused");
    assert_eq!(ContainerState::Removing.to_string(), "removing");
    assert_eq!(ContainerState::Restarting.to_string(), "restarting");
    assert_eq!(ContainerState::Running.to_string(), "running");
}

#[test]
fn display_string_renders_zero_counts() {
    assert_eq!(
        ProjectStatus::Running { active_containers: 0, total_containers: 0 }.display_string(),
        "Running (0/0)"
    );
}
