use gpanel_core::container::{ContainerFilter, ContainerStatus, CreateContainerRequest, RestartPolicy};
use gpanel_core::http::HttpMethod;
use gpanel_core::runtime::{
    BoltClient, BoltResponse, ContainerLogsRequest, RuntimeBody,
};
use gpanel_core::Error;

fn client() -> BoltClient {
    BoltClient::new("http://localhost:8080")
}

fn empty_filter() -> ContainerFilter {
    ContainerFilter {
        status: None,
        name_contains: None,
        image_contains: None,
        has_gaming_config: None,
        has_gpu: None,
        network: None,
    }
}

#[test]
fn stop_request_shape() {
    let req = client().stop_container_request("abc123", Some(30));
    assert_eq!(req.method, HttpMethod::Post);
    assert_eq!(req.url, "http://localhost:8080/containers/abc123/action");
    match req.body {
        RuntimeBody::Operation(op) => {
            assert_eq!(op.action, "stop");
            assert_eq!(op.container_id, "abc123");
            let o = op.options.expect("options");
            assert_eq!(o.timeout, Some(30));
            assert!(o.signal.is_none());
            assert!(o.force.is_none());
            assert!(o.volumes.is_none());
        },
        other => panic!("expected an operation body, got {:?}", other),
    }
}

#[test]
fn start_and_pause_have_no_options() {
    for req in [client().start_container_request("x"), client().pause_container_request("x")] {
        match req.body {
            RuntimeBody::Operation(op) => assert!(op.options.is_none()),
            other => panic!("expected an operation body, got {:?}", other),
        }
    }
}

#[test]
fn kill_carries_signal() {
    let req = client().kill_container_request("x", Some("SIGTERM"));
    match req.body {
        RuntimeBody::Operation(op) => {
            assert_eq!(op.action, "kill");
            assert_eq!(op.options.unwrap().signal, Some("SIGTERM".to_string()));
        },
        other => panic!("expected an operation body, got {:?}", other),
    }
}

#[test]
fn remove_always_states_force_and_volumes() {
    let req = client().remove_container_request("x", true, false);
    match req.body {
        RuntimeBody::Operation(op) => {
            let o = op.options.unwrap();
            assert_eq!(o.force, Some(true));
            assert_eq!(o.volumes, Some(false));
        },
        other => panic!("expected an operation body, got {:?}", other),
    }
}

#[test]
fn absent_filter_adds_no_query_string() {
    let req = client().list_containers_request(&None);
    assert_eq!(req.url, "http://localhost:8080/containers");
    let req = client().list_containers_request(&Some(empty_filter()));
    assert_eq!(req.url, "http://localhost:8080/containers");
}

#[test]
fn filter_values_become_query_parameters() {
    let mut f = empty_filter();
    f.status = Some(ContainerStatus::Running);
    f.name_contains = Some("my app".to_string());
    f.has_gpu = Some(true);
    let req = client().list_containers_request(&Some(f));
    assert_eq!(
        req.url,
        "http://localhost:8080/containers?status=\"Running\"&name=my%20app&gpu=true"
    );
}

#[test]
fn exited_status_filter_renders_code() {
    let mut f = empty_filter();
    f.status = Some(ContainerStatus::Exited { code: 5 });
    let req = client().list_containers_request(&Some(f));
    assert_eq!(
        req.url,
        "http://localhost:8080/containers?status={\"Exited\":{\"code\":5}}"
    );
}

#[test]
fn logs_request_query() {
    let req = client().logs_request(&ContainerLogsRequest {
        container_id: "abc".to_string(),
        follow: false,
        tail: Some(100),
        timestamps: true,
        since: Some(1700000000),
    });
    assert_eq!(
        req.url,
        "http://localhost:8080/containers/abc/logs?follow=false&timestamps=true&tail=100&since=1700000000"
    );
}

#[test]
fn logs_request_without_optionals() {
    let req = client().logs_request(&ContainerLogsRequest {
        container_id: "abc".to_string(),
        follow: true,
        tail: None,
        timestamps: false,
        since: None,
    });
    assert_eq!(
        req.url,
        "http://localhost:8080/containers/abc/logs?follow=true&timestamps=false"
    );
}

#[test]
fn create_request_posts_the_specification() {
    let request = CreateContainerRequest {
        name: Some("web".to_string()),
        image: "nginx:latest".to_string(),
        ports: Vec::new(),
        volumes: Vec::new(),
        networks: Vec::new(),
        env: Vec::new(),
        labels: Vec::new(),
        gaming_config: None,
        gpu_allocation: None,
        restart_policy: RestartPolicy::default(),
    };
    let req = client().create_container_request(request);
    assert_eq!(req.method, HttpMethod::Post);
    assert_eq!(req.url, "http://localhost:8080/containers");
    assert!(matches!(req.body, RuntimeBody::Create(_)));
}

#[test]
fn ping_interpretation() {
    let c = client();
    assert_eq!(c.ping_request().url, "http://localhost:8080/ping");
    assert!(c.interpret_ping(Some(200)));
    assert!(!c.interpret_ping(Some(500)));
    assert!(!c.interpret_ping(None));
}

#[test]
fn operation_success_needs_status_flag_and_no_error() {
    let c = client();
    let ok_env = BoltResponse::<()> { success: true, data: Some(()), error: None, timestamp: 0 };
    assert!(c.interpret_operation_response("stop", 200, Some(ok_env)).is_ok());

    match c.interpret_operation_response("stop", 500, None) {
        Err(Error::Network(m)) => assert_eq!(m, "Operation stop failed: 500"),
        other => panic!("expected a Network error, got {:?}", other),
    }

    assert!(matches!(
        c.interpret_operation_response("stop", 200, None),
        Err(Error::Serialization(_))
    ));

    let rejected = BoltResponse::<()> {
        success: false,
        data: None,
        error: Some("No such container: nope".to_string()),
        timestamp: 0,
    };
    match c.interpret_operation_response("stop", 200, Some(rejected)) {
        Err(Error::Container(m)) => {
            assert_eq!(m, "Runtime operation failed: No such container: nope");
        },
        other => panic!("expected a Container error, got {:?}", other),
    }
}

#[test]
fn data_response_interpretation() {
    let c = client();
    let env = BoltResponse::<u32> { success: true, data: Some(7), error: None, timestamp: 0 };
    assert_eq!(c.interpret_data_response("list containers", 200, Some(env)).unwrap(), 7);

    match c.interpret_data_response::<u32>("list containers", 500, None) {
        Err(Error::Network(m)) => assert_eq!(m, "Failed to list containers: 500"),
        other => panic!("expected a Network error, got {:?}", other),
    }

    assert!(matches!(
        c.interpret_data_response::<u32>("list containers", 200, None),
        Err(Error::Serialization(_))
    ));

    let missing = BoltResponse::<u32> { success: true, data: None, error: None, timestamp: 0 };
    match c.interpret_data_response("list containers", 200, Some(missing)) {
        Err(Error::Bolt(m)) => {
            assert_eq!(m, "Runtime API error for list containers: no data in response");
        },
        other => panic!("expected a runtime API error, got {:?}", other),
    }

    let rejected = BoltResponse::<u32> {
        success: false,
        data: None,
        error: Some("backend exploded".to_string()),
        timestamp: 0,
    };
    match c.interpret_data_response("list containers", 200, Some(rejected)) {
        Err(Error::Bolt(m)) => {
            assert_eq!(m, "Runtime API error for list containers: backend exploded");
        },
        other => panic!("expected a runtime API error, got {:?}", other),
    }
}

#[test]
fn stats_and_exec_request_urls() {
    let c = client();
    assert_eq!(c.stats_request("abc").url, "http://localhost:8080/containers/abc/stats");
    assert_eq!(c.get_container_request("abc").url, "http://localhost:8080/containers/abc");
    let req = c.exec_container_request("abc", vec!["ls".to_string(), "-l".to_string()], true);
    assert_eq!(req.url, "http://localhost:8080/containers/abc/exec");
    match req.body {
        RuntimeBody::Exec(e) => {
            assert_eq!(e.cmd, vec!["ls".to_string(), "-l".to_string()]);
            assert!(e.tty);
            assert!(e.attach_stdout && e.attach_stderr);
        },
        other => panic!("expected an exec body, got {:?}", other),
    }
}
