use gfc::ports::CreateContainerConfig;
use gfc::ports::PortMapping;
use gfc::ports::Service;
use gfc::ports::create_container_config_from;
use gfc::ports::extract_port_mappings;
use gfc::ports::get_working_dir;
use gfc::ports::prepare_labels;
use gfc::ports::prepare_ports;

#[test]
fn extract_port_mappings_given_valid_input_then_return_correct_mappings() {
    let input = vec!["8080:80/tcp".to_string(), "443:443/udp".to_string()];
    let result = extract_port_mappings(&input).unwrap();

    let expected = vec![
        PortMapping {
            host_port: "8080".to_string(),
            container_port: "80".to_string(),
            protocol: "tcp".to_string(),
        },
        PortMapping {
            host_port: "443".to_string(),
            container_port: "443".to_string(),
            protocol: "udp".to_string(),
        },
    ];

    assert_eq!(expected, result);
}

#[test]
fn extract_port_mappings_given_valid_ports_without_protocol_then_use_default_tcp() {
    let input = vec!["8080:80".to_string(), "3000:3000".to_string()];
    let result = extract_port_mappings(&input).unwrap();

    let expected = vec![
        PortMapping {
            host_port: "8080".to_string(),
            container_port: "80".to_string(),
            protocol: "tcp".to_string(),
        },
        PortMapping {
            host_port: "3000".to_string(),
            container_port: "3000".to_string(),
            protocol: "tcp".to_string(),
        },
    ];

    assert_eq!(result, expected);
}

#[test]
fn extract_port_mappings_given_empty_input_then_return_empty_list() {
    let input: Vec<String> = vec![];
    let result = extract_port_mappings(&input).unwrap();
    let expected: Vec<PortMapping> = vec![];
    assert_eq!(expected, result);
}

#[test]
fn extract_port_mappings_given_single_port_then_use_as_both_host_and_container() {
    let input = vec!["80/tcp".to_string()];
    let result = extract_port_mappings(&input).unwrap();

    let expected = vec![PortMapping {
        host_port: "80".to_string(),
        container_port: "80".to_string(),
        protocol: "tcp".to_string(),
    }];

    assert_eq!(expected, result);
}

#[test]
fn extract_port_mappings_given_malformed_port_then_name_it_in_the_error() {
    let input = vec!["80".to_string(), "1:2:3".to_string()];
    let result = extract_port_mappings(&input);
    assert_eq!(
        result.unwrap_err(),
        gfc::ports::DockerComposeError::InvalidPort("1:2:3".to_string())
    );
}

#[test]
fn get_working_dir_gives_the_directory_of_the_file() {
    assert_eq!(get_working_dir("/workspace/repos/foo/docker-compose.yml"), "/workspace/repos/foo");
    assert_eq!(get_working_dir("a/b.yml"), "a");
    assert_eq!(get_working_dir("/top.yml"), "/");
    assert_eq!(get_working_dir("bare.yml"), "");
}

#[test]
fn get_working_dir_normalizes_extra_separators() {
    assert_eq!(get_working_dir("a/b/"), "a");
    assert_eq!(get_working_dir("a//b"), "a");
    assert_eq!(get_working_dir("a/"), "");
    assert_eq!(get_working_dir("/a/"), "/");
}

#[test]
fn prepare_labels_ties_the_container_to_its_project_service_and_file() {
    let labels = prepare_labels("/work/proj/compose.yml", "proj", "proj-web");
    assert_eq!(
        labels,
        vec![
            ("com.docker.compose.project".to_string(), "proj".to_string()),
            ("com.docker.compose.service".to_string(), "proj-web".to_string()),
            (
                "com.docker.compose.project.config_files".to_string(),
                "/work/proj/compose.yml".to_string()
            ),
            ("com.docker.compose.project.working_dir".to_string(), "/work/proj".to_string()),
        ]
    );
}

#[test]
fn create_container_config_carries_the_service_over() {
    let service = Service {
        image: Some("nginx:latest".to_string()),
        command: Some(vec!["nginx".to_string(), "-g".to_string()]),
        environment: None,
        ports: Some(vec!["8080:80".to_string()]),
    };
    let config: CreateContainerConfig =
        create_container_config_from("/w/p/compose.yml", "p", "p-web", &service).unwrap();
    assert_eq!(config.name, "p-web");
    assert_eq!(config.image, "nginx:latest");
    assert_eq!(config.command, Some(vec!["nginx".to_string(), "-g".to_string()]));
    assert_eq!(config.environment, None);
    let ports = config.ports.unwrap();
    assert_eq!(ports.len(), 1);
    assert_eq!(ports[0].host_port, "8080");
    assert_eq!(ports[0].container_port, "80");
    assert_eq!(ports[0].protocol, "tcp");
    let labels = config.labels.unwrap();
    assert_eq!(labels[3].1, "/w/p");
}

#[test]
fn prepare_ports_given_no_ports_then_return_none() {
    let service = Service { image: None, command: None, environment: None, ports: None };
    assert_eq!(prepare_ports(&service).unwrap(), None);
}
