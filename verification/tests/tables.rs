use nodeagent::config::{decimal_text, listen_address, listen_port, parse_port, DEFAULT_PORT};
use nodeagent::dispatch::{respond, validate, Body, Command, Params, Query, Request};
use nodeagent::error::{status_code, ErrorKind, ProviderError, STATUS_OK};
use nodeagent::memory::MemoryProvider;
use nodeagent::pod::{copy_all, DaemonEndpoints, Duplicate, LogOptions, Pod, PodIdentity};
use nodeagent::provider::Provider;
use nodeagent::route::{resolve, setup_route_map, Method, Operation};
use nodeagent::server::start_server;
use nodeagent::state::ProviderState;
use nodeagent::text::{owned, same_text};

fn empty_backend() -> MemoryProvider {
    MemoryProvider::new(
        Vec::new(),
        Vec::new(),
        Vec::new(),
        DaemonEndpoints { kubelet_port: 0 },
        "linux".to_string(),
    )
}

fn pod(namespace: &str, name: &str) -> Pod {
    Pod {
        identity: PodIdentity::new(namespace, name),
        containers: vec!["c1".to_string(), "c2".to_string()],
        document: vec![1, 2, 3],
    }
}

#[test]
fn each_kind_has_its_status() {
    assert_eq!(STATUS_OK, 200);
    assert_eq!(status_code(ErrorKind::Invalid), 400);
    assert_eq!(status_code(ErrorKind::NotFound), 404);
    assert_eq!(status_code(ErrorKind::AlreadyExists), 409);
    assert_eq!(status_code(ErrorKind::Unsupported), 500);
    assert_eq!(status_code(ErrorKind::Internal), 500);
}

#[test]
fn kinds_and_phases_have_names() {
    assert_eq!(ErrorKind::Invalid.name(), "Invalid");
    assert_eq!(ErrorKind::NotFound.name(), "NotFound");
    assert_eq!(ErrorKind::AlreadyExists.name(), "AlreadyExists");
    assert_eq!(ErrorKind::Unsupported.name(), "Unsupported");
    assert_eq!(ErrorKind::Internal.name(), "Internal");
    assert_eq!(nodeagent::pod::Phase::Pending.name(), "Pending");
    assert_eq!(nodeagent::pod::Phase::Running.name(), "Running");
    assert_eq!(nodeagent::pod::Phase::Succeeded.name(), "Succeeded");
    assert_eq!(nodeagent::pod::Phase::Failed.name(), "Failed");
    assert_eq!(nodeagent::pod::Phase::Unknown.name(), "Unknown");
}

#[test]
fn failures_are_answered_with_kind_and_message() {
    let r = respond(Err(ProviderError::new(ErrorKind::Internal, "the runtime broke")));
    assert_eq!(r.status, 500);
    match r.body {
        Body::Failure(kind, message) => {
            assert_eq!(kind, ErrorKind::Internal);
            assert_eq!(message, "the runtime broke");
        }
        _ => panic!("a failure was expected"),
    }
    let r = respond(Err(ProviderError::new(ErrorKind::Unsupported, "no updates")));
    assert_eq!(r.status, 500);
    assert!(matches!(r.body, Body::Failure(ErrorKind::Unsupported, _)));
    let r = respond(Ok(Body::Logs(vec![7, 8])));
    assert_eq!(r.status, 200);
    match r.body {
        Body::Logs(b) => assert_eq!(b, vec![7, 8]),
        _ => panic!("logs were expected"),
    }
}

#[test]
fn the_table_has_thirteen_routes_in_order() {
    let ops = setup_route_map();
    let rows: Vec<(Method, &str, &str)> =
        ops.iter().map(|op| (op.method(), op.path(), op.id())).collect();
    assert_eq!(
        rows,
        vec![
            (Method::Get, "/", "index"),
            (Method::Post, "/createPod", "create_pod"),
            (Method::Put, "/updatePod", "update_pod"),
            (Method::Delete, "/deletePod", "delete_pod"),
            (Method::Get, "/getPod", "get_pod"),
            (Method::Get, "/getContainerLogs", "get_container_logs"),
            (Method::Get, "/getPodStatus", "get_pod_status"),
            (Method::Get, "/getPods", "get_pods"),
            (Method::Get, "/capacity", "capacity"),
            (Method::Get, "/nodeConditions", "node_conditions"),
            (Method::Get, "/nodeAddresses", "node_addresses"),
            (Method::Get, "/nodeDaemonEndpoints", "node_daemon_endpoints"),
            (Method::Get, "/operatingSystem", "operating_system"),
        ]
    );
}

#[test]
fn every_route_resolves_to_its_operation() {
    for op in setup_route_map() {
        assert_eq!(resolve(op.method(), op.path()), Some(op));
    }
    assert_eq!(resolve(Method::Get, "/getPod"), Some(Operation::GetPod));
    assert_eq!(resolve(Method::Get, "/getPods"), Some(Operation::GetPods));
    assert_eq!(resolve(Method::Delete, "/getPod"), None);
    assert_eq!(resolve(Method::Put, "/createPod"), None);
    assert_eq!(resolve(Method::Get, "/getPod/"), None);
}

#[test]
fn pod_scoped_operations() {
    let scoped: Vec<Operation> =
        setup_route_map().into_iter().filter(|op| op.pod_scoped()).collect();
    assert_eq!(
        scoped,
        vec![
            Operation::CreatePod,
            Operation::UpdatePod,
            Operation::DeletePod,
            Operation::GetPod,
            Operation::GetContainerLogs,
            Operation::GetPodStatus,
        ]
    );
}

#[test]
fn ports_are_parsed() {
    assert_eq!(parse_port("3000"), Some(3000));
    assert_eq!(parse_port("0"), Some(0));
    assert_eq!(parse_port("+80"), Some(80));
    assert_eq!(parse_port("0008080"), Some(8080));
    assert_eq!(parse_port("65535"), Some(65535));
    assert_eq!(parse_port("65536"), None);
    assert_eq!(parse_port("99999999999999999999"), None);
    assert_eq!(parse_port(""), None);
    assert_eq!(parse_port("+"), None);
    assert_eq!(parse_port("-1"), None);
    assert_eq!(parse_port("12a"), None);
    assert_eq!(parse_port(" 80"), None);
    assert_eq!(parse_port("++80"), None);
    for text in ["3000", "+80", "65536", "", "+", "-1", "12a", "007"] {
        assert_eq!(parse_port(text), text.parse::<u16>().ok());
    }
}

#[test]
fn the_port_defaults_to_3000() {
    assert_eq!(DEFAULT_PORT, 3000);
    assert_eq!(listen_port(None), 3000);
    assert_eq!(listen_port(Some("8080")), 8080);
    assert_eq!(listen_port(Some("eighty")), 3000);
    assert_eq!(listen_port(Some("70000")), 3000);
}

#[test]
fn the_address_is_every_interface_at_the_port() {
    assert_eq!(listen_address(3000), "0.0.0.0:3000");
    assert_eq!(listen_address(0), "0.0.0.0:0");
    assert_eq!(listen_address(65535), "0.0.0.0:65535");
    assert_eq!(decimal_text(10), "10");
    assert_eq!(decimal_text(9), "9");
    assert_eq!(decimal_text(1005), "1005");
    for n in [0u16, 7, 42, 100, 999, 1000, 12345, 65535] {
        assert_eq!(decimal_text(n), n.to_string());
        assert_eq!(parse_port(&decimal_text(n)), Some(n));
    }
}

#[test]
fn a_server_is_put_together() {
    let s = start_server(Box::new(empty_backend()), Some("8081"));
    assert_eq!(s.address, "0.0.0.0:8081");
    assert_eq!(s.routes, setup_route_map());
    assert_eq!(s.state.acquire().operating_system(), "linux");
    let s = start_server(Box::new(empty_backend()), None);
    assert_eq!(s.address, "0.0.0.0:3000");
    let s = start_server(Box::new(empty_backend()), Some("not a port"));
    assert_eq!(s.address, "0.0.0.0:3000");
}

#[test]
fn a_failed_factory_fails_the_handle() {
    let failed: Result<MemoryProvider, ProviderError> =
        Err(ProviderError::new(ErrorKind::Invalid, "no configuration"));
    match ProviderState::from_factory(failed) {
        Err(e) => {
            assert_eq!(e.kind, ErrorKind::Invalid);
            assert_eq!(e.message, "no configuration");
        }
        Ok(_) => panic!("the factory failed"),
    }
    let made = ProviderState::from_factory(Ok(empty_backend()));
    match made {
        Ok(state) => assert!(state.acquire().get_pods().unwrap().is_empty()),
        Err(_) => panic!("the factory succeeded"),
    }
}

#[test]
fn backend_operations_directly() {
    let mut b = empty_backend();
    assert!(b.get_pods().unwrap().is_empty());
    assert!(b.create_pod(pod("ns", "a")).is_ok());
    let again = b.create_pod(pod("ns", "a"));
    assert_eq!(again.unwrap_err().kind, ErrorKind::AlreadyExists);
    let got = b.get_pod(&PodIdentity::new("ns", "a")).unwrap();
    assert_eq!(got.identity.namespace, "ns");
    assert_eq!(got.identity.name, "a");
    assert_eq!(got.document, vec![1, 2, 3]);
    assert_eq!(b.get_pod(&PodIdentity::new("ns", "b")).unwrap_err().kind, ErrorKind::NotFound);
    assert_eq!(b.get_pod(&PodIdentity::new("a", "ns")).unwrap_err().kind, ErrorKind::NotFound);
    assert_eq!(
        b.update_pod(pod("ns", "b")).unwrap_err().kind,
        ErrorKind::NotFound
    );
    assert_eq!(
        b.delete_pod(&PodIdentity::new("ns", "b")).unwrap_err().kind,
        ErrorKind::NotFound
    );
    let options = LogOptions { tail: None, since_seconds: Some(5), follow: false };
    assert!(b.get_container_logs(&PodIdentity::new("ns", "a"), "c2", options).is_ok());
    assert_eq!(
        b.get_container_logs(&PodIdentity::new("ns", "a"), "c3", options).unwrap_err().kind,
        ErrorKind::NotFound
    );
    assert!(b.delete_pod(&PodIdentity::new("ns", "a")).is_ok());
    assert_eq!(b.get_pod(&PodIdentity::new("ns", "a")).unwrap_err().kind, ErrorKind::NotFound);
    assert_eq!(
        b.delete_pod(&PodIdentity::new("ns", "a")).unwrap_err().kind,
        ErrorKind::NotFound
    );
    assert!(b.get_pods().unwrap().is_empty());
}

#[test]
fn deleting_keeps_the_others() {
    let mut b = empty_backend();
    for name in ["a", "b", "c", "d"] {
        assert!(b.create_pod(pod("ns", name)).is_ok());
    }
    assert!(b.delete_pod(&PodIdentity::new("ns", "b")).is_ok());
    let names: Vec<String> = b.get_pods().unwrap().into_iter().map(|p| p.identity.name).collect();
    assert_eq!(names, vec!["a".to_string(), "c".to_string(), "d".to_string()]);
}

#[test]
fn requests_are_made_of_parameters() {
    let params = Params {
        namespace: Some("ns".to_string()),
        name: Some("a".to_string()),
        container: Some("main".to_string()),
        tail: Some(3),
        since_seconds: None,
        follow: true,
        pod: None,
    };
    match validate(Operation::GetContainerLogs, params) {
        Ok(Request::Query(Query::GetContainerLogs(id, container, options))) => {
            assert_eq!(id.namespace, "ns");
            assert_eq!(id.name, "a");
            assert_eq!(container, "main");
            assert_eq!(options, LogOptions { tail: Some(3), since_seconds: None, follow: true });
        }
        _ => panic!("a log query was expected"),
    }
    let params = Params {
        namespace: Some("ns".to_string()),
        name: Some("a".to_string()),
        container: None,
        tail: None,
        since_seconds: None,
        follow: false,
        pod: None,
    };
    match validate(Operation::DeletePod, params) {
        Ok(Request::Command(Command::DeletePod(id))) => {
            assert!(id.same(&PodIdentity::new("ns", "a")));
            assert!(!id.same(&PodIdentity::new("ns", "b")));
            assert!(!id.same(&PodIdentity::new("nt", "a")));
        }
        _ => panic!("a deletion was expected"),
    }
    let params = Params {
        namespace: None,
        name: None,
        container: None,
        tail: None,
        since_seconds: None,
        follow: false,
        pod: None,
    };
    match validate(Operation::GetPod, params) {
        Err(e) => assert_eq!(e.kind, ErrorKind::Invalid),
        Ok(_) => panic!("a refusal was expected"),
    }
}

#[test]
fn copies_keep_what_they_copy() {
    let p = pod("ns", "a");
    let q = p.duplicate();
    assert_eq!(q.identity.namespace, "ns");
    assert_eq!(q.identity.name, "a");
    assert_eq!(q.containers, p.containers);
    assert_eq!(q.document, p.document);
    assert!(p.has_container("c1"));
    assert!(p.has_container("c2"));
    assert!(!p.has_container("c"));
    assert_eq!(copy_all(&vec!["x".to_string(), "y".to_string()]), vec!["x", "y"]);
    assert!(same_text("abc", "abc"));
    assert!(!same_text("abc", "abd"));
    assert!(!same_text("abc", "ab"));
    assert_eq!(owned("abc"), "abc");
}
