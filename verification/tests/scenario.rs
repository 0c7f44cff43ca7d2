use nodeagent::dispatch::{Body, Params, Response};
use nodeagent::error::ErrorKind;
use nodeagent::memory::MemoryProvider;
use nodeagent::pod::{DaemonEndpoints, NodeAddress, NodeCondition, Pod, PodIdentity, Resource};
use nodeagent::route::Method;
use nodeagent::server::{start_server, Server};

fn backend() -> MemoryProvider {
    MemoryProvider::new(
        vec![
            Resource { name: "cpu".to_string(), quantity: 4 },
            Resource { name: "memory".to_string(), quantity: 8192 },
        ],
        vec![NodeCondition {
            kind: "Ready".to_string(),
            status: true,
            reason: "Started".to_string(),
            message: "the node is ready".to_string(),
            last_heartbeat: 10,
            last_transition: 5,
        }],
        vec![NodeAddress { kind: "InternalIP".to_string(), address: "10.0.0.1".to_string() }],
        DaemonEndpoints { kubelet_port: 10250 },
        "linux".to_string(),
    )
}

fn server() -> Server<MemoryProvider> {
    start_server(Box::new(backend()), None)
}

fn no_params() -> Params {
    Params {
        namespace: None,
        name: None,
        container: None,
        tail: None,
        since_seconds: None,
        follow: false,
        pod: None,
    }
}

fn named(namespace: &str, name: &str) -> Params {
    let mut p = no_params();
    p.namespace = Some(namespace.to_string());
    p.name = Some(name.to_string());
    p
}

fn pod(namespace: &str, name: &str, document: &[u8]) -> Pod {
    Pod {
        identity: PodIdentity::new(namespace, name),
        containers: vec!["main".to_string()],
        document: document.to_vec(),
    }
}

fn with_pod(p: Pod) -> Params {
    let mut params = no_params();
    params.pod = Some(p);
    params
}

fn ask(s: &mut Server<MemoryProvider>, method: Method, path: &str, params: Params) -> Response {
    match s.handle(method, path, params) {
        Some(r) => r,
        None => panic!("no route for {}", path),
    }
}

#[test]
fn create_get_delete_get() {
    let mut s = server();
    let r = ask(&mut s, Method::Post, "/createPod", with_pod(pod("ns", "a", b"{}")));
    assert_eq!(r.status, 200);
    assert!(matches!(r.body, Body::Empty));

    let r = ask(&mut s, Method::Get, "/getPod", named("ns", "a"));
    assert_eq!(r.status, 200);
    match r.body {
        Body::Pod(p) => {
            assert_eq!(p.identity.namespace, "ns");
            assert_eq!(p.identity.name, "a");
            assert_eq!(p.containers, vec!["main".to_string()]);
            assert_eq!(p.document, b"{}".to_vec());
        }
        _ => panic!("a pod was expected"),
    }

    let r = ask(&mut s, Method::Delete, "/deletePod", named("ns", "a"));
    assert_eq!(r.status, 200);

    let r = ask(&mut s, Method::Get, "/getPod", named("ns", "a"));
    assert_eq!(r.status, 404);
    match r.body {
        Body::Failure(kind, message) => {
            assert_eq!(kind, ErrorKind::NotFound);
            assert!(!message.is_empty());
        }
        _ => panic!("a failure was expected"),
    }
}

#[test]
fn second_create_conflicts() {
    let mut s = server();
    let r = ask(&mut s, Method::Post, "/createPod", with_pod(pod("ns", "a", b"one")));
    assert_eq!(r.status, 200);
    let r = ask(&mut s, Method::Post, "/createPod", with_pod(pod("ns", "a", b"two")));
    assert_eq!(r.status, 409);
    assert!(matches!(r.body, Body::Failure(ErrorKind::AlreadyExists, _)));
    // the first pod is still the one known
    let r = ask(&mut s, Method::Get, "/getPod", named("ns", "a"));
    match r.body {
        Body::Pod(p) => assert_eq!(p.document, b"one".to_vec()),
        _ => panic!("a pod was expected"),
    }
    // the same name in another namespace is another pod
    let r = ask(&mut s, Method::Post, "/createPod", with_pod(pod("other", "a", b"x")));
    assert_eq!(r.status, 200);
}

#[test]
fn delete_of_absent_pod_is_not_found() {
    let mut s = server();
    let r = ask(&mut s, Method::Delete, "/deletePod", named("ns", "ghost"));
    assert_eq!(r.status, 404);
    assert!(matches!(r.body, Body::Failure(ErrorKind::NotFound, _)));
}

#[test]
fn update_replaces_only_what_exists() {
    let mut s = server();
    let r = ask(&mut s, Method::Put, "/updatePod", with_pod(pod("ns", "a", b"new")));
    assert_eq!(r.status, 404);
    ask(&mut s, Method::Post, "/createPod", with_pod(pod("ns", "a", b"old")));
    let r = ask(&mut s, Method::Put, "/updatePod", with_pod(pod("ns", "a", b"new")));
    assert_eq!(r.status, 200);
    let r = ask(&mut s, Method::Get, "/getPod", named("ns", "a"));
    match r.body {
        Body::Pod(p) => assert_eq!(p.document, b"new".to_vec()),
        _ => panic!("a pod was expected"),
    }
    let r = ask(&mut s, Method::Get, "/getPods", no_params());
    match r.body {
        Body::Pods(pods) => assert_eq!(pods.len(), 1),
        _ => panic!("pods were expected"),
    }
}

fn listed(s: &mut Server<MemoryProvider>) -> Vec<(String, String)> {
    let r = ask(s, Method::Get, "/getPods", no_params());
    assert_eq!(r.status, 200);
    match r.body {
        Body::Pods(pods) => {
            let mut ids: Vec<(String, String)> =
                pods.into_iter().map(|p| (p.identity.namespace, p.identity.name)).collect();
            ids.sort();
            ids
        }
        _ => panic!("pods were expected"),
    }
}

#[test]
fn listing_holds_exactly_the_live_pods() {
    let mut s = server();
    assert_eq!(listed(&mut s), Vec::<(String, String)>::new());
    for name in ["a", "b", "c"] {
        let r = ask(&mut s, Method::Post, "/createPod", with_pod(pod("ns", name, b"")));
        assert_eq!(r.status, 200);
    }
    ask(&mut s, Method::Post, "/createPod", with_pod(pod("ns", "b", b"")));
    ask(&mut s, Method::Delete, "/deletePod", named("ns", "a"));
    ask(&mut s, Method::Delete, "/deletePod", named("ns", "zz"));
    assert_eq!(
        listed(&mut s),
        vec![("ns".to_string(), "b".to_string()), ("ns".to_string(), "c".to_string())]
    );
    ask(&mut s, Method::Post, "/createPod", with_pod(pod("ns", "a", b"")));
    assert_eq!(listed(&mut s).len(), 3);
}

#[test]
fn repeated_listings_agree() {
    let mut s = server();
    ask(&mut s, Method::Post, "/createPod", with_pod(pod("ns", "a", b"1")));
    ask(&mut s, Method::Post, "/createPod", with_pod(pod("ns", "b", b"2")));
    let first = listed(&mut s);
    for _ in 0..8 {
        assert_eq!(listed(&mut s), first);
    }
}

#[test]
fn node_is_described_before_any_pod() {
    let mut s = server();
    let r = ask(&mut s, Method::Get, "/capacity", no_params());
    assert_eq!(r.status, 200);
    match r.body {
        Body::Capacity(c) => {
            assert_eq!(c.len(), 2);
            assert_eq!(c[0].name, "cpu");
            assert_eq!(c[0].quantity, 4);
            assert_eq!(c[1].name, "memory");
            assert_eq!(c[1].quantity, 8192);
        }
        _ => panic!("capacity was expected"),
    }
    let r = ask(&mut s, Method::Get, "/nodeConditions", no_params());
    assert_eq!(r.status, 200);
    match r.body {
        Body::Conditions(c) => {
            assert_eq!(c.len(), 1);
            assert_eq!(c[0].kind, "Ready");
            assert!(c[0].status);
            assert_eq!(c[0].reason, "Started");
            assert_eq!(c[0].message, "the node is ready");
            assert_eq!(c[0].last_heartbeat, 10);
            assert_eq!(c[0].last_transition, 5);
        }
        _ => panic!("conditions were expected"),
    }
    let r = ask(&mut s, Method::Get, "/nodeAddresses", no_params());
    assert_eq!(r.status, 200);
    match r.body {
        Body::Addresses(a) => {
            assert_eq!(a.len(), 1);
            assert_eq!(a[0].kind, "InternalIP");
            assert_eq!(a[0].address, "10.0.0.1");
        }
        _ => panic!("addresses were expected"),
    }
    let r = ask(&mut s, Method::Get, "/nodeDaemonEndpoints", no_params());
    assert_eq!(r.status, 200);
    assert!(matches!(r.body, Body::Endpoints(DaemonEndpoints { kubelet_port: 10250 })));
    let r = ask(&mut s, Method::Get, "/operatingSystem", no_params());
    assert_eq!(r.status, 200);
    match r.body {
        Body::OperatingSystem(os) => assert_eq!(os, "linux"),
        _ => panic!("an operating system was expected"),
    }
    let r = ask(&mut s, Method::Get, "/", no_params());
    assert_eq!(r.status, 200);
    assert!(matches!(r.body, Body::Info));
}

#[test]
fn missing_parameters_are_refused_before_the_backend() {
    let mut s = server();
    ask(&mut s, Method::Post, "/createPod", with_pod(pod("ns", "a", b"")));
    let r = ask(&mut s, Method::Post, "/createPod", no_params());
    assert_eq!(r.status, 400);
    assert!(matches!(r.body, Body::Failure(ErrorKind::Invalid, _)));
    let r = ask(&mut s, Method::Put, "/updatePod", named("ns", "a"));
    assert_eq!(r.status, 400);
    let mut only_name = no_params();
    only_name.name = Some("a".to_string());
    let r = ask(&mut s, Method::Delete, "/deletePod", only_name);
    assert_eq!(r.status, 400);
    let mut only_namespace = no_params();
    only_namespace.namespace = Some("ns".to_string());
    let r = ask(&mut s, Method::Get, "/getPod", only_namespace);
    assert_eq!(r.status, 400);
    let r = ask(&mut s, Method::Get, "/getPodStatus", no_params());
    assert_eq!(r.status, 400);
    let r = ask(&mut s, Method::Get, "/getContainerLogs", named("ns", "a"));
    assert_eq!(r.status, 400);
    // the pod is still there
    assert_eq!(listed(&mut s), vec![("ns".to_string(), "a".to_string())]);
}

#[test]
fn status_and_logs_of_a_pod() {
    let mut s = server();
    ask(&mut s, Method::Post, "/createPod", with_pod(pod("ns", "a", b"")));
    let r = ask(&mut s, Method::Get, "/getPodStatus", named("ns", "a"));
    assert_eq!(r.status, 200);
    match r.body {
        Body::Status(st) => {
            assert_eq!(st.phase, nodeagent::pod::Phase::Pending);
            assert_eq!(st.running_containers, 0);
        }
        _ => panic!("a status was expected"),
    }
    let r = ask(&mut s, Method::Get, "/getPodStatus", named("ns", "b"));
    assert_eq!(r.status, 404);

    let mut logs = named("ns", "a");
    logs.container = Some("main".to_string());
    logs.tail = Some(10);
    let r = ask(&mut s, Method::Get, "/getContainerLogs", logs);
    assert_eq!(r.status, 200);
    match r.body {
        Body::Logs(bytes) => assert!(bytes.is_empty()),
        _ => panic!("logs were expected"),
    }
    let mut logs = named("ns", "a");
    logs.container = Some("sidecar".to_string());
    let r = ask(&mut s, Method::Get, "/getContainerLogs", logs);
    assert_eq!(r.status, 404);
    let mut logs = named("ns", "nobody");
    logs.container = Some("main".to_string());
    let r = ask(&mut s, Method::Get, "/getContainerLogs", logs);
    assert_eq!(r.status, 404);
}

#[test]
fn unknown_routes_have_no_answer() {
    let mut s = server();
    assert!(s.handle(Method::Get, "/nothing", no_params()).is_none());
    assert!(s.handle(Method::Get, "/createPod", no_params()).is_none());
    assert!(s.handle(Method::Post, "/getPods", no_params()).is_none());
    assert!(s.handle(Method::Get, "/getpods", no_params()).is_none());
    assert!(s.handle(Method::Get, "", no_params()).is_none());
}
