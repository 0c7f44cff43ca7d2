//! The routing table: which operation each method and path stands for.

use vstd::prelude::*;
use vstd::string::*;
use crate::text::same_text;

verus! {

/// The HTTP methods the table knows.
#[derive(Clone, Copy, Debug, PartialEq, Eq, Structural)]
pub enum Method {
    Get,
    Post,
    Put,
    Delete,
}

/// The operations the agent offers.
#[derive(Clone, Copy, Debug, PartialEq, Eq, Structural)]
pub enum Operation {
    Index,
    CreatePod,
    UpdatePod,
    DeletePod,
    GetPod,
    GetContainerLogs,
    GetPodStatus,
    GetPods,
    Capacity,
    NodeConditions,
    NodeAddresses,
    NodeDaemonEndpoints,
    OperatingSystem,
}

/// The method under which an operation is offered.
pub open spec fn method_of(op: Operation) -> Method {
    match op {
        Operation::CreatePod => Method::Post,
        Operation::UpdatePod => Method::Put,
        Operation::DeletePod => Method::Delete,
        _ => Method::Get,
    }
}

/// The path under which an operation is offered.
pub open spec fn path_of(op: Operation) -> Seq<char> {
    match op {
        Operation::Index => "/"@,
        Operation::CreatePod => "/createPod"@,
        Operation::UpdatePod => "/updatePod"@,
        Operation::DeletePod => "/deletePod"@,
        Operation::GetPod => "/getPod"@,
        Operation::GetContainerLogs => "/getContainerLogs"@,
        Operation::GetPodStatus => "/getPodStatus"@,
        Operation::GetPods => "/getPods"@,
        Operation::Capacity => "/capacity"@,
        Operation::NodeConditions => "/nodeConditions"@,
        Operation::NodeAddresses => "/nodeAddresses"@,
        Operation::NodeDaemonEndpoints => "/nodeDaemonEndpoints"@,
        Operation::OperatingSystem => "/operatingSystem"@,
    }
}

/// The name under which an operation's route is registered.
pub open spec fn id_of(op: Operation) -> Seq<char> {
    match op {
        Operation::Index => "index"@,
        Operation::CreatePod => "create_pod"@,
        Operation::UpdatePod => "update_pod"@,
        Operation::DeletePod => "delete_pod"@,
        Operation::GetPod => "get_pod"@,
        Operation::GetContainerLogs => "get_container_logs"@,
        Operation::GetPodStatus => "get_pod_status"@,
        Operation::GetPods => "get_pods"@,
        Operation::Capacity => "capacity"@,
        Operation::NodeConditions => "node_conditions"@,
        Operation::NodeAddresses => "node_addresses"@,
        Operation::NodeDaemonEndpoints => "node_daemon_endpoints"@,
        Operation::OperatingSystem => "operating_system"@,
    }
}

/// The operations that read or change one pod; the others describe the node
/// or the agent itself.
pub open spec fn is_pod_scoped(op: Operation) -> bool {
    op == Operation::CreatePod || op == Operation::UpdatePod || op == Operation::DeletePod
        || op == Operation::GetPod || op == Operation::GetPodStatus
        || op == Operation::GetContainerLogs
}

/// The table in registration order.
pub open spec fn table() -> Seq<Operation> {
    seq![
        Operation::Index,
        Operation::CreatePod,
        Operation::UpdatePod,
        Operation::DeletePod,
        Operation::GetPod,
        Operation::GetContainerLogs,
        Operation::GetPodStatus,
        Operation::GetPods,
        Operation::Capacity,
        Operation::NodeConditions,
        Operation::NodeAddresses,
        Operation::NodeDaemonEndpoints,
        Operation::OperatingSystem,
    ]
}

/// Whether `op` is offered under exactly this method and path.
pub open spec fn serves(op: Operation, method: Method, path: Seq<char>) -> bool {
    method_of(op) == method && path_of(op) == path
}

/// The operation that a method and path stand for, if any.
pub open spec fn route_of(method: Method, path: Seq<char>) -> Option<Operation> {
    if exists|op: Operation| serves(op, method, path) {
        Some(choose|op: Operation| serves(op, method, path))
    } else {
        None
    }
}

impl Operation {
    /// The method under which the operation is offered.
    pub fn method(self) -> (m: Method)
        ensures
            m == method_of(self),
    {
        match self {
            Operation::CreatePod => Method::Post,
            Operation::UpdatePod => Method::Put,
            Operation::DeletePod => Method::Delete,
            _ => Method::Get,
        }
    }

    /// The path under which the operation is offered.
    pub fn path(self) -> (p: &'static str)
        ensures
            p@ == path_of(self),
    {
        match self {
            Operation::Index => "/",
            Operation::CreatePod => "/createPod",
            Operation::UpdatePod => "/updatePod",
            Operation::DeletePod => "/deletePod",
            Operation::GetPod => "/getPod",
            Operation::GetContainerLogs => "/getContainerLogs",
            Operation::GetPodStatus => "/getPodStatus",
            Operation::GetPods => "/getPods",
            Operation::Capacity => "/capacity",
            Operation::NodeConditions => "/nodeConditions",
            Operation::NodeAddresses => "/nodeAddresses",
            Operation::NodeDaemonEndpoints => "/nodeDaemonEndpoints",
            Operation::OperatingSystem => "/operatingSystem",
        }
    }

    /// The name under which the operation's route is registered.
    pub fn id(self) -> (p: &'static str)
        ensures
            p@ == id_of(self),
    {
        match self {
            Operation::Index => "index",
            Operation::CreatePod => "create_pod",
            Operation::UpdatePod => "update_pod",
            Operation::DeletePod => "delete_pod",
            Operation::GetPod => "get_pod",
            Operation::GetContainerLogs => "get_container_logs",
            Operation::GetPodStatus => "get_pod_status",
            Operation::GetPods => "get_pods",
            Operation::Capacity => "capacity",
            Operation::NodeConditions => "node_conditions",
            Operation::NodeAddresses => "node_addresses",
            Operation::NodeDaemonEndpoints => "node_daemon_endpoints",
            Operation::OperatingSystem => "operating_system",
        }
    }

    /// Whether the operation reads or changes one pod.
    pub fn pod_scoped(self) -> (b: bool)
        ensures
            b == is_pod_scoped(self),
    {
        match self {
            Operation::CreatePod | Operation::UpdatePod | Operation::DeletePod
            | Operation::GetPod | Operation::GetPodStatus | Operation::GetContainerLogs => true,
            _ => false,
        }
    }
}

/// Every operation, in registration order.
pub fn setup_route_map() -> (ops: Vec<Operation>)
    ensures
        ops@ == table(),
{
    let mut ops: Vec<Operation> = Vec::new();
    ops.push(Operation::Index);
    ops.push(Operation::CreatePod);
    ops.push(Operation::UpdatePod);
    ops.push(Operation::DeletePod);
    ops.push(Operation::GetPod);
    ops.push(Operation::GetContainerLogs);
    ops.push(Operation::GetPodStatus);
    ops.push(Operation::GetPods);
    ops.push(Operation::Capacity);
    ops.push(Operation::NodeConditions);
    ops.push(Operation::NodeAddresses);
    ops.push(Operation::NodeDaemonEndpoints);
    ops.push(Operation::OperatingSystem);
    proof {
        assert(ops@ =~= table());
    }
    ops
}

/// The table lists every operation.
pub proof fn lemma_table_complete(op: Operation)
    ensures
        exists|i: int| 0 <= i < table().len() && table()[i] == op,
{
    let t = table();
    match op {
        Operation::Index => assert(t[0] == op),
        Operation::CreatePod => assert(t[1] == op),
        Operation::UpdatePod => assert(t[2] == op),
        Operation::DeletePod => assert(t[3] == op),
        Operation::GetPod => assert(t[4] == op),
        Operation::GetContainerLogs => assert(t[5] == op),
        Operation::GetPodStatus => assert(t[6] == op),
        Operation::GetPods => assert(t[7] == op),
        Operation::Capacity => assert(t[8] == op),
        Operation::NodeConditions => assert(t[9] == op),
        Operation::NodeAddresses => assert(t[10] == op),
        Operation::NodeDaemonEndpoints => assert(t[11] == op),
        Operation::OperatingSystem => assert(t[12] == op),
    }
}

/// The length of an operation's path.
pub open spec fn path_len(op: Operation) -> nat {
    match op {
        Operation::Index => 1,
        Operation::CreatePod => 10,
        Operation::UpdatePod => 10,
        Operation::DeletePod => 10,
        Operation::GetPod => 7,
        Operation::GetContainerLogs => 17,
        Operation::GetPodStatus => 13,
        Operation::GetPods => 8,
        Operation::Capacity => 9,
        Operation::NodeConditions => 15,
        Operation::NodeAddresses => 14,
        Operation::NodeDaemonEndpoints => 20,
        Operation::OperatingSystem => 16,
    }
}

/// Each path is as long as `path_len` says.
pub proof fn lemma_path_len(op: Operation)
    ensures
        path_of(op).len() == path_len(op),
{
    match op {
        Operation::Index => reveal_strlit("/"),
        Operation::CreatePod => reveal_strlit("/createPod"),
        Operation::UpdatePod => reveal_strlit("/updatePod"),
        Operation::DeletePod => reveal_strlit("/deletePod"),
        Operation::GetPod => reveal_strlit("/getPod"),
        Operation::GetContainerLogs => reveal_strlit("/getContainerLogs"),
        Operation::GetPodStatus => reveal_strlit("/getPodStatus"),
        Operation::GetPods => reveal_strlit("/getPods"),
        Operation::Capacity => reveal_strlit("/capacity"),
        Operation::NodeConditions => reveal_strlit("/nodeConditions"),
        Operation::NodeAddresses => reveal_strlit("/nodeAddresses"),
        Operation::NodeDaemonEndpoints => reveal_strlit("/nodeDaemonEndpoints"),
        Operation::OperatingSystem => reveal_strlit("/operatingSystem"),
    }
}

/// No two operations share a method and a path.
pub proof fn lemma_routes_distinct(a: Operation, b: Operation)
    requires
        method_of(a) == method_of(b),
        path_of(a) == path_of(b),
    ensures
        a == b,
{
    lemma_path_len(a);
    lemma_path_len(b);
    assert(path_len(a) == path_len(b));
}

/// The length of an operation's route name.
pub open spec fn id_len(op: Operation) -> nat {
    match op {
        Operation::Index => 5,
        Operation::CreatePod => 10,
        Operation::UpdatePod => 10,
        Operation::DeletePod => 10,
        Operation::GetPod => 7,
        Operation::GetContainerLogs => 18,
        Operation::GetPodStatus => 14,
        Operation::GetPods => 8,
        Operation::Capacity => 8,
        Operation::NodeConditions => 15,
        Operation::NodeAddresses => 14,
        Operation::NodeDaemonEndpoints => 21,
        Operation::OperatingSystem => 16,
    }
}

/// The first character of an operation's route name.
pub open spec fn id_initial(op: Operation) -> char {
    match op {
        Operation::Index => 'i',
        Operation::CreatePod => 'c',
        Operation::UpdatePod => 'u',
        Operation::DeletePod => 'd',
        Operation::GetPod => 'g',
        Operation::GetContainerLogs => 'g',
        Operation::GetPodStatus => 'g',
        Operation::GetPods => 'g',
        Operation::Capacity => 'c',
        Operation::NodeConditions => 'n',
        Operation::NodeAddresses => 'n',
        Operation::NodeDaemonEndpoints => 'n',
        Operation::OperatingSystem => 'o',
    }
}

/// Each route name is as long as `id_len` says and begins as `id_initial`
/// says.
pub proof fn lemma_id_shape(op: Operation)
    ensures
        id_of(op).len() == id_len(op),
        id_of(op)[0] == id_initial(op),
{
    match op {
        Operation::Index => reveal_strlit("index"),
        Operation::CreatePod => reveal_strlit("create_pod"),
        Operation::UpdatePod => reveal_strlit("update_pod"),
        Operation::DeletePod => reveal_strlit("delete_pod"),
        Operation::GetPod => reveal_strlit("get_pod"),
        Operation::GetContainerLogs => reveal_strlit("get_container_logs"),
        Operation::GetPodStatus => reveal_strlit("get_pod_status"),
        Operation::GetPods => reveal_strlit("get_pods"),
        Operation::Capacity => reveal_strlit("capacity"),
        Operation::NodeConditions => reveal_strlit("node_conditions"),
        Operation::NodeAddresses => reveal_strlit("node_addresses"),
        Operation::NodeDaemonEndpoints => reveal_strlit("node_daemon_endpoints"),
        Operation::OperatingSystem => reveal_strlit("operating_system"),
    }
}

/// No two operations are registered under one name.
pub proof fn lemma_ids_distinct(a: Operation, b: Operation)
    requires
        id_of(a) == id_of(b),
    ensures
        a == b,
{
    lemma_id_shape(a);
    lemma_id_shape(b);
    assert(id_len(a) == id_len(b));
    assert(id_initial(a) == id_initial(b));
}

/// Every operation is reached by its own method and path, and by no other.
pub proof fn lemma_route_of_own(op: Operation)
    ensures
        route_of(method_of(op), path_of(op)) == Some(op),
{
    let m = method_of(op);
    let p = path_of(op);
    assert(serves(op, m, p));
    let found = choose|o: Operation| serves(o, m, p);
    lemma_routes_distinct(found, op);
}

/// The operation that a request's method and path stand for; `None` where the
/// table has no such route.
pub fn resolve(method: Method, path: &str) -> (found: Option<Operation>)
    ensures
        found == route_of(method, path@),
        found matches Some(op) ==> serves(op, method, path@),
        found is None ==> forall|op: Operation| !serves(op, method, path@),
{
    let ops = setup_route_map();
    let mut i: usize = 0;
    while i < ops.len()
        invariant
            i <= ops.len(),
            ops@ == table(),
            forall|j: int| 0 <= j < i ==> !serves(#[trigger] ops@[j], method, path@),
        decreases ops.len() - i,
    {
        let op = ops[i];
        if op.method() == method && same_text(path, op.path()) {
            proof {
                assert(serves(op, method, path@));
                let chosen = choose|o: Operation| serves(o, method, path@);
                lemma_routes_distinct(chosen, op);
            }
            return Some(op);
        }
        i += 1;
    }
    proof {
        assert forall|op: Operation| !serves(op, method, path@) by {
            lemma_table_complete(op);
        }
    }
    None
}

} // verus!
