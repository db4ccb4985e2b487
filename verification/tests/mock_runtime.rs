use gpanel_core::container::{ContainerFilter, ContainerStatus, CreateContainerRequest, RestartPolicy};
use gpanel_core::mock::MockBoltClient;
use gpanel_core::runtime::ContainerLogsRequest;
use gpanel_core::Error;

fn empty_filter() -> ContainerFilter {
    ContainerFilter {
        status: None,
        name_contains: None,
        image_contains: None,
        has_gaming_config: None,
        has_gpu: None,
        network: None,
    }
}

fn known_id(mock: &MockBoltClient) -> String {
    mock.containers[0].id.clone()
}

#[test]
fn stop_accepts_the_shared_request_shape() {
    let mock = MockBoltClient::new();
    let id = known_id(&mock);
    assert!(mock.stop_container(&id, Some(30)).is_ok());
    match mock.stop_container("unknown-id", Some(30)) {
        Err(Error::Container(m)) => assert_eq!(m, "No such container: unknown-id"),
        other => panic!("expected a Container error, got {:?}", other),
    }
}

#[test]
fn lifecycle_operations_validate_the_id() {
    let mock = MockBoltClient::new();
    let id = known_id(&mock);
    assert!(mock.start_container(&id).is_ok());
    assert!(mock.restart_container(&id, None).is_ok());
    assert!(mock.remove_container(&id, false, false).is_ok());
    assert!(matches!(mock.start_container("nope"), Err(Error::Container(_))));
    assert!(matches!(mock.restart_container("nope", None), Err(Error::Container(_))));
    assert!(matches!(mock.remove_container("nope", true, true), Err(Error::Container(_))));
}

#[test]
fn list_without_filter_returns_the_entity_set() {
    let mock = MockBoltClient::new();
    let all = mock.list_containers(None).unwrap();
    assert_eq!(all.len(), 3);
}

#[test]
fn list_filters_by_gpu_and_name() {
    let mock = MockBoltClient::new();

    let mut by_gpu = empty_filter();
    by_gpu.has_gpu = Some(true);
    let gpu = mock.list_containers(Some(by_gpu)).unwrap();
    assert_eq!(gpu.len(), 1);
    assert_eq!(gpu[0].name, "steam-gaming");

    let mut by_name = empty_filter();
    by_name.name_contains = Some("nginx".to_string());
    let named = mock.list_containers(Some(by_name)).unwrap();
    assert_eq!(named.len(), 1);
    assert_eq!(named[0].name, "nginx-web");

    let mut by_status = empty_filter();
    by_status.status = Some(ContainerStatus::Exited { code: 0 });
    let exited = mock.list_containers(Some(by_status)).unwrap();
    assert_eq!(exited.len(), 1);
    assert_eq!(exited[0].name, "postgres-db");

    let mut by_network = empty_filter();
    by_network.network = Some("gaming".to_string());
    let nets = mock.list_containers(Some(by_network)).unwrap();
    assert_eq!(nets.len(), 1);
    assert_eq!(nets[0].name, "steam-gaming");
}

#[test]
fn get_container_copies_the_entity() {
    let mock = MockBoltClient::new();
    let id = known_id(&mock);
    let c = mock.get_container(&id).unwrap();
    assert_eq!(c.id, id);
    assert_eq!(c.name, mock.containers[0].name);
    assert!(matches!(mock.get_container("nope"), Err(Error::Container(_))));
}

#[test]
fn logs_for_a_known_id() {
    let mock = MockBoltClient::new();
    let req = ContainerLogsRequest {
        container_id: known_id(&mock),
        follow: false,
        tail: Some(10),
        timestamps: true,
        since: None,
    };
    let logs = mock.get_container_logs(&req).unwrap();
    assert!(logs.contains("Container started successfully"));
    let bad = ContainerLogsRequest { container_id: "nope".to_string(), ..req };
    assert!(matches!(mock.get_container_logs(&bad), Err(Error::Container(_))));
}

#[test]
fn stats_derive_from_recorded_metrics() {
    let mock = MockBoltClient::new();
    let id = known_id(&mock);
    let stats = mock.get_container_stats(&id).unwrap();
    assert_eq!(stats.container_id, id);
    assert_eq!(stats.cpu_percent, 1520);
    assert_eq!(stats.memory_usage, 128);
    assert_eq!(stats.memory_limit, 512);
    assert_eq!(stats.pid_count, 1);

    let bare = mock.get_container_stats("mock_database_003").unwrap();
    assert_eq!(bare.cpu_percent, 0);
    assert_eq!(bare.pid_count, 0);

    assert!(matches!(mock.get_container_stats("nope"), Err(Error::Container(_))));
}

#[test]
fn create_builds_the_entity_from_the_request() {
    let mock = MockBoltClient::new();
    let created = mock
        .create_container(CreateContainerRequest {
            name: Some("web".to_string()),
            image: "nginx:latest".to_string(),
            ports: Vec::new(),
            volumes: Vec::new(),
            networks: vec!["bridge".to_string()],
            env: Vec::new(),
            labels: Vec::new(),
            gaming_config: None,
            gpu_allocation: None,
            restart_policy: RestartPolicy::No,
        })
        .unwrap();
    assert_eq!(created.id, "mock_web");
    assert_eq!(created.name, "web");
    assert_eq!(created.image, "nginx:latest");
    assert!(matches!(created.status, ContainerStatus::Created));
    assert_eq!(created.networks, vec!["bridge".to_string()]);
    assert!(created.started_at.is_none());
}
