//! From a resolved request to a response: which parameters each operation
//! needs, which call on the backend it becomes, and how the outcome is
//! answered.

use vstd::prelude::*;
use vstd::string::*;
use crate::error::{
    lemma_failure_status_is_error, status_code, status_of, ErrorKind, ProviderError, STATUS_OK,
};
use crate::pod::{
    views, DaemonEndpoints, LogOptions, NodeAddress, NodeCondition, Pod, PodIdentity, PodKey,
    PodStatus, PodView, Resource,
};
use crate::provider::{
    create_outcome, delete_outcome, get_outcome, has_container, list_outcome, lists,
    logs_outcome, status_outcome, update_outcome, Provider,
};
use crate::route::{is_pod_scoped, Operation};

verus! {

/// What the transport found in a request: the query's values and, where the
/// body held a pod, that pod.
pub struct Params {
    pub namespace: Option<String>,
    pub name: Option<String>,
    pub container: Option<String>,
    pub tail: Option<u64>,
    pub since_seconds: Option<u64>,
    pub follow: bool,
    pub pod: Option<Pod>,
}

/// A request that changes the backend's pods.
pub enum Command {
    CreatePod(Pod),
    UpdatePod(Pod),
    DeletePod(PodIdentity),
}

/// A request that only reads.
pub enum Query {
    Index,
    GetPod(PodIdentity),
    GetContainerLogs(PodIdentity, String, LogOptions),
    GetPodStatus(PodIdentity),
    GetPods,
    Capacity,
    NodeConditions,
    NodeAddresses,
    NodeDaemonEndpoints,
    OperatingSystem,
}

/// A request with the parameters its operation needs.
pub enum Request {
    Command(Command),
    Query(Query),
}

/// What a response carries.
pub enum Body {
    /// Nothing: the request was carried out.
    Empty,
    /// The agent's own greeting.
    Info,
    Pod(Pod),
    Pods(Vec<Pod>),
    Status(PodStatus),
    Logs(Vec<u8>),
    Capacity(Vec<Resource>),
    Conditions(Vec<NodeCondition>),
    Addresses(Vec<NodeAddress>),
    Endpoints(DaemonEndpoints),
    OperatingSystem(String),
    /// The kind of failure and a message for a human reader.
    Failure(ErrorKind, String),
}

/// A response: the HTTP status and what goes with it.
pub struct Response {
    pub status: u16,
    pub body: Body,
}

/// Whether the parameters hold what the operation needs.
pub open spec fn complete(op: Operation, params: Params) -> bool {
    match op {
        Operation::CreatePod | Operation::UpdatePod => params.pod is Some,
        Operation::DeletePod | Operation::GetPod | Operation::GetPodStatus => {
            params.namespace is Some && params.name is Some
        },
        Operation::GetContainerLogs => {
            params.namespace is Some && params.name is Some && params.container is Some
        },
        _ => true,
    }
}

/// The identity that the parameters name.
pub open spec fn identity_of(params: Params) -> PodIdentity {
    PodIdentity { namespace: params.namespace->Some_0, name: params.name->Some_0 }
}

/// The log options that the parameters name.
pub open spec fn options_of(params: Params) -> LogOptions {
    LogOptions { tail: params.tail, since_seconds: params.since_seconds, follow: params.follow }
}

/// The request that an operation and complete parameters make.
pub open spec fn request_of(op: Operation, params: Params) -> Request {
    match op {
        Operation::Index => Request::Query(Query::Index),
        Operation::CreatePod => Request::Command(Command::CreatePod(params.pod->Some_0)),
        Operation::UpdatePod => Request::Command(Command::UpdatePod(params.pod->Some_0)),
        Operation::DeletePod => Request::Command(Command::DeletePod(identity_of(params))),
        Operation::GetPod => Request::Query(Query::GetPod(identity_of(params))),
        Operation::GetContainerLogs => Request::Query(
            Query::GetContainerLogs(
                identity_of(params),
                params.container->Some_0,
                options_of(params),
            ),
        ),
        Operation::GetPodStatus => Request::Query(Query::GetPodStatus(identity_of(params))),
        Operation::GetPods => Request::Query(Query::GetPods),
        Operation::Capacity => Request::Query(Query::Capacity),
        Operation::NodeConditions => Request::Query(Query::NodeConditions),
        Operation::NodeAddresses => Request::Query(Query::NodeAddresses),
        Operation::NodeDaemonEndpoints => Request::Query(Query::NodeDaemonEndpoints),
        Operation::OperatingSystem => Request::Query(Query::OperatingSystem),
    }
}

/// Checks that the parameters hold what the operation needs, before any
/// backend is asked. Where something is missing the request is `Invalid`.
pub fn validate(op: Operation, params: Params) -> (checked: Result<Request, ProviderError>)
    ensures
        checked is Ok <==> complete(op, params),
        checked is Ok ==> checked->Ok_0 == request_of(op, params),
        checked is Err ==> checked->Err_0.kind == ErrorKind::Invalid,
{
    let Params { namespace, name, container, tail, since_seconds, follow, pod } = params;
    match op {
        Operation::Index => Ok(Request::Query(Query::Index)),
        Operation::GetPods => Ok(Request::Query(Query::GetPods)),
        Operation::Capacity => Ok(Request::Query(Query::Capacity)),
        Operation::NodeConditions => Ok(Request::Query(Query::NodeConditions)),
        Operation::NodeAddresses => Ok(Request::Query(Query::NodeAddresses)),
        Operation::NodeDaemonEndpoints => Ok(Request::Query(Query::NodeDaemonEndpoints)),
        Operation::OperatingSystem => Ok(Request::Query(Query::OperatingSystem)),
        Operation::CreatePod => match pod {
            Some(pod) => Ok(Request::Command(Command::CreatePod(pod))),
            None => Err(ProviderError::new(ErrorKind::Invalid, "the body holds no pod")),
        },
        Operation::UpdatePod => match pod {
            Some(pod) => Ok(Request::Command(Command::UpdatePod(pod))),
            None => Err(ProviderError::new(ErrorKind::Invalid, "the body holds no pod")),
        },
        _ => match (namespace, name) {
            (Some(namespace), Some(name)) => {
                let id = PodIdentity { namespace, name };
                match op {
                    Operation::DeletePod => Ok(Request::Command(Command::DeletePod(id))),
                    Operation::GetPod => Ok(Request::Query(Query::GetPod(id))),
                    Operation::GetPodStatus => Ok(Request::Query(Query::GetPodStatus(id))),
                    _ => match container {
                        Some(container) => Ok(
                            Request::Query(
                                Query::GetContainerLogs(
                                    id,
                                    container,
                                    LogOptions { tail, since_seconds, follow },
                                ),
                            ),
                        ),
                        None => Err(
                            ProviderError::new(ErrorKind::Invalid, "no container is named"),
                        ),
                    },
                }
            },
            _ => Err(ProviderError::new(ErrorKind::Invalid, "no pod is named")),
        },
    }
}

/// The response to an outcome: 200 with the body on success, the status of
/// the failure's kind with kind and message otherwise.
pub open spec fn response_of(outcome: Result<Body, ProviderError>) -> Response {
    match outcome {
        Ok(body) => Response { status: STATUS_OK, body },
        Err(e) => Response { status: status_of(e.kind), body: Body::Failure(e.kind, e.message) },
    }
}

/// Answers an outcome. No failure is swallowed: each is answered with the
/// status of its kind.
pub fn respond(outcome: Result<Body, ProviderError>) -> (resp: Response)
    ensures
        resp == response_of(outcome),
{
    match outcome {
        Ok(body) => Response { status: STATUS_OK, body },
        Err(e) => {
            let ProviderError { kind, message } = e;
            Response { status: status_code(kind), body: Body::Failure(kind, message) }
        },
    }
}

/// Whether the status of a response goes with its body: the status of the
/// failure's kind for a failure, 200 for anything else.
pub open spec fn coherent(resp: Response) -> bool {
    match resp.body {
        Body::Failure(kind, _) => resp.status == status_of(kind),
        _ => resp.status == STATUS_OK,
    }
}

/// The body that goes with the outcome of a command.
pub open spec fn done_body(done: Result<(), ProviderError>) -> Result<Body, ProviderError> {
    match done {
        Ok(_) => Ok(Body::Empty),
        Err(e) => Err(e),
    }
}

/// The body that goes with the outcome of a lookup.
pub open spec fn pod_body(got: Result<Pod, ProviderError>) -> Result<Body, ProviderError> {
    match got {
        Ok(pod) => Ok(Body::Pod(pod)),
        Err(e) => Err(e),
    }
}

/// The body that goes with the outcome of a status lookup.
pub open spec fn status_body(got: Result<PodStatus, ProviderError>) -> Result<
    Body,
    ProviderError,
> {
    match got {
        Ok(status) => Ok(Body::Status(status)),
        Err(e) => Err(e),
    }
}

/// The body that goes with the outcome of a listing.
pub open spec fn pods_body(got: Result<Vec<Pod>, ProviderError>) -> Result<Body, ProviderError> {
    match got {
        Ok(pods) => Ok(Body::Pods(pods)),
        Err(e) => Err(e),
    }
}

/// The body that goes with the outcome of a reading of logs.
pub open spec fn logs_body(got: Result<Vec<u8>, ProviderError>) -> Result<Body, ProviderError> {
    match got {
        Ok(bytes) => Ok(Body::Logs(bytes)),
        Err(e) => Err(e),
    }
}

/// Whether `done` can be the backend's outcome of the command, given its pods
/// before and after.
pub open spec fn command_outcome(
    before: Map<PodKey, PodView>,
    after: Map<PodKey, PodView>,
    command: Command,
    done: Result<(), ProviderError>,
) -> bool {
    match command {
        Command::CreatePod(pod) => create_outcome(before, after, pod@, done),
        Command::UpdatePod(pod) => update_outcome(before, after, pod@, done),
        Command::DeletePod(id) => delete_outcome(before, after, id@, done),
    }
}

/// Whether `resp` answers the command, given the backend's pods before and
/// after it: it is the response to the backend's own outcome, 200 and nothing
/// on success, the failure's status, kind and message otherwise.
pub open spec fn answers_command(
    before: Map<PodKey, PodView>,
    after: Map<PodKey, PodView>,
    command: Command,
    resp: Response,
) -> bool {
    exists|done: Result<(), ProviderError>| #[trigger]
        command_outcome(before, after, command, done) && resp == response_of(done_body(done))
}

/// Carries out a command on the backend and answers its outcome.
pub fn execute<P: Provider>(prov: &mut P, command: Command) -> (resp: Response)
    ensures
        answers_command(old(prov).pods(), final(prov).pods(), command, resp),
{
    let ghost before = prov.pods();
    let done = match command {
        Command::CreatePod(pod) => prov.create_pod(pod),
        Command::UpdatePod(pod) => prov.update_pod(pod),
        Command::DeletePod(id) => prov.delete_pod(&id),
    };
    proof {
        assert(command_outcome(before, prov.pods(), command, done));
    }
    match done {
        Ok(_) => respond(Ok(Body::Empty)),
        Err(e) => respond(Err(e)),
    }
}

/// What the answer to a command tells: it is 200 or a failure; only 200
/// changes the backend's pods, as the command says; a creation under a taken
/// identity is a conflict; an update or a deletion of what is not there is
/// refused, the deletion as not found.
pub proof fn lemma_command_answer(
    before: Map<PodKey, PodView>,
    after: Map<PodKey, PodView>,
    command: Command,
    resp: Response,
)
    requires
        answers_command(before, after, command, resp),
    ensures
        coherent(resp),
        resp.body is Empty || resp.body is Failure,
        resp.status != STATUS_OK ==> after == before,
        match command {
            Command::CreatePod(pod) => {
                &&& resp.status == STATUS_OK ==> after == before.insert(pod@.key, pod@)
                &&& before.contains_key(pod@.key) ==> resp.status == 409
            },
            Command::UpdatePod(pod) => {
                &&& resp.status == STATUS_OK ==> after == before.insert(pod@.key, pod@)
                &&& !before.contains_key(pod@.key) ==> resp.status != STATUS_OK
            },
            Command::DeletePod(id) => {
                &&& resp.status == STATUS_OK ==> after == before.remove(id@)
                &&& !before.contains_key(id@) ==> resp.status == 404
            },
        },
{
    let done = choose|done: Result<(), ProviderError>| #[trigger]
        command_outcome(before, after, command, done) && resp == response_of(done_body(done));
    if done is Err {
        lemma_failure_status_is_error(done->Err_0.kind);
    }
}

/// Whether `resp` answers the query on the backend: for a query about pods
/// it is the response to the backend's own outcome; for one about the node
/// it is 200 with the backend's description.
pub open spec fn answers_query<P: Provider>(prov: &P, query: Query, resp: Response) -> bool {
    match query {
        Query::Index => resp == (Response { status: STATUS_OK, body: Body::Info }),
        Query::GetPod(id) => exists|got: Result<Pod, ProviderError>| #[trigger]
            get_outcome(prov.pods(), id@, got) && resp == response_of(pod_body(got)),
        Query::GetContainerLogs(id, container, options) => exists|
            got: Result<Vec<u8>, ProviderError>,
        | #[trigger]
            logs_outcome(prov.pods(), prov.logs(id@, container@, options), id@, container@, got)
                && resp == response_of(logs_body(got)),
        Query::GetPodStatus(id) => exists|got: Result<PodStatus, ProviderError>| #[trigger]
            status_outcome(prov.pods(), prov.status(id@), id@, got) && resp == response_of(
                status_body(got),
            ),
        Query::GetPods => exists|got: Result<Vec<Pod>, ProviderError>| #[trigger]
            list_outcome(prov.pods(), got) && resp == response_of(pods_body(got)),
        Query::Capacity => resp.status == STATUS_OK && resp.body is Capacity && views(
            resp.body->Capacity_0@,
        ) == prov.node_capacity(),
        Query::NodeConditions => resp.status == STATUS_OK && resp.body is Conditions && views(
            resp.body->Conditions_0@,
        ) == prov.conditions(),
        Query::NodeAddresses => resp.status == STATUS_OK && resp.body is Addresses && views(
            resp.body->Addresses_0@,
        ) == prov.addresses(),
        Query::NodeDaemonEndpoints => resp == (Response {
            status: STATUS_OK,
            body: Body::Endpoints(prov.endpoints()),
        }),
        Query::OperatingSystem => resp.status == STATUS_OK && resp.body is OperatingSystem
            && resp.body->OperatingSystem_0@ == prov.os(),
    }
}

/// Answers a query from the backend, which it only reads.
pub fn answer<P: Provider>(prov: &P, query: Query) -> (resp: Response)
    ensures
        answers_query(prov, query, resp),
{
    match query {
        Query::Index => respond(Ok(Body::Info)),
        Query::GetPod(id) => {
            let got = prov.get_pod(&id);
            proof {
                assert(get_outcome(prov.pods(), id@, got));
            }
            match got {
                Ok(pod) => respond(Ok(Body::Pod(pod))),
                Err(e) => respond(Err(e)),
            }
        },
        Query::GetContainerLogs(id, container, options) => {
            let got = prov.get_container_logs(&id, container.as_str(), options);
            proof {
                assert(logs_outcome(
                    prov.pods(),
                    prov.logs(id@, container@, options),
                    id@,
                    container@,
                    got,
                ));
            }
            match got {
                Ok(bytes) => respond(Ok(Body::Logs(bytes))),
                Err(e) => respond(Err(e)),
            }
        },
        Query::GetPodStatus(id) => {
            let got = prov.get_pod_status(&id);
            proof {
                assert(status_outcome(prov.pods(), prov.status(id@), id@, got));
            }
            match got {
                Ok(status) => respond(Ok(Body::Status(status))),
                Err(e) => respond(Err(e)),
            }
        },
        Query::GetPods => {
            let got = prov.get_pods();
            proof {
                assert(list_outcome(prov.pods(), got));
            }
            match got {
                Ok(pods) => respond(Ok(Body::Pods(pods))),
                Err(e) => respond(Err(e)),
            }
        },
        Query::Capacity => respond(Ok(Body::Capacity(prov.capacity()))),
        Query::NodeConditions => respond(Ok(Body::Conditions(prov.node_conditions()))),
        Query::NodeAddresses => respond(Ok(Body::Addresses(prov.node_addresses()))),
        Query::NodeDaemonEndpoints => respond(Ok(Body::Endpoints(prov.node_daemon_endpoints()))),
        Query::OperatingSystem => respond(Ok(Body::OperatingSystem(prov.operating_system()))),
    }
}

/// What the answer to a query about pods tells: it is 404 exactly where the
/// pod, or the container asked for, is not there; a 200 carries what the
/// backend holds; a listing of no pods is a 200.
pub proof fn lemma_query_answer<P: Provider>(prov: &P, query: Query, resp: Response)
    requires
        answers_query(prov, query, resp),
    ensures
        coherent(resp),
        match query {
            Query::GetPod(id) => {
                &&& resp.status == 404 <==> !prov.pods().contains_key(id@)
                &&& resp.status == STATUS_OK ==> resp.body is Pod && resp.body->Pod_0@
                    == prov.pods()[id@]
            },
            Query::GetContainerLogs(id, container, options) => {
                &&& resp.status == 404 <==> !has_container(prov.pods(), id@, container@)
                &&& resp.status == STATUS_OK ==> resp.body is Logs && resp.body->Logs_0@
                    == prov.logs(id@, container@, options)
            },
            Query::GetPodStatus(id) => {
                &&& resp.status == 404 <==> !prov.pods().contains_key(id@)
                &&& resp.status == STATUS_OK ==> resp.body == Body::Status(prov.status(id@))
            },
            Query::GetPods => {
                &&& prov.pods().dom() =~= Set::<PodKey>::empty() ==> resp.status == STATUS_OK
                &&& resp.status == STATUS_OK ==> resp.body is Pods && lists(
                    views(resp.body->Pods_0@),
                    prov.pods(),
                )
            },
            _ => resp.status == STATUS_OK,
        },
{
    match query {
        Query::GetPod(id) => {
            let got = choose|got: Result<Pod, ProviderError>| #[trigger]
                get_outcome(prov.pods(), id@, got) && resp == response_of(pod_body(got));
            if got is Err {
                lemma_failure_status_is_error(got->Err_0.kind);
            }
        },
        Query::GetContainerLogs(id, container, options) => {
            let got = choose|got: Result<Vec<u8>, ProviderError>| #[trigger]
                logs_outcome(
                    prov.pods(),
                    prov.logs(id@, container@, options),
                    id@,
                    container@,
                    got,
                ) && resp == response_of(logs_body(got));
            if got is Err {
                lemma_failure_status_is_error(got->Err_0.kind);
            }
        },
        Query::GetPodStatus(id) => {
            let got = choose|got: Result<PodStatus, ProviderError>| #[trigger]
                status_outcome(prov.pods(), prov.status(id@), id@, got) && resp == response_of(
                    status_body(got),
                );
            if got is Err {
                lemma_failure_status_is_error(got->Err_0.kind);
            }
        },
        Query::GetPods => {
            let got = choose|got: Result<Vec<Pod>, ProviderError>| #[trigger]
                list_outcome(prov.pods(), got) && resp == response_of(pods_body(got));
            if got is Err {
                lemma_failure_status_is_error(got->Err_0.kind);
            }
        },
        _ => {},
    }
}

/// After a creation answered with 200, a lookup of the same identity is not
/// answered with 404, and a 200 carries the pod created, under its identity.
pub proof fn lemma_created_pod_is_found<P: Provider>(
    before: Map<PodKey, PodView>,
    prov: &P,
    pod: Pod,
    id: PodIdentity,
    created: Response,
    got: Response,
)
    requires
        answers_command(before, prov.pods(), Command::CreatePod(pod), created),
        created.status == STATUS_OK,
        id@ == pod@.key,
        answers_query(prov, Query::GetPod(id), got),
    ensures
        got.status != 404,
        got.status == STATUS_OK ==> got.body is Pod && got.body->Pod_0@ == pod@
            && got.body->Pod_0@.key == id@,
{
    lemma_command_answer(before, prov.pods(), Command::CreatePod(pod), created);
    lemma_query_answer(prov, Query::GetPod(id), got);
}

/// After a creation answered with 200, a second creation under the same
/// identity is answered with 409 and changes nothing.
pub proof fn lemma_second_creation_conflicts(
    before: Map<PodKey, PodView>,
    between: Map<PodKey, PodView>,
    after: Map<PodKey, PodView>,
    first: Pod,
    second: Pod,
    created: Response,
    again: Response,
)
    requires
        answers_command(before, between, Command::CreatePod(first), created),
        created.status == STATUS_OK,
        second@.key == first@.key,
        answers_command(between, after, Command::CreatePod(second), again),
    ensures
        again.status == 409,
        again.body is Failure && again.body->Failure_0 == ErrorKind::AlreadyExists,
        after == between,
{
    lemma_command_answer(before, between, Command::CreatePod(first), created);
    lemma_command_answer(between, after, Command::CreatePod(second), again);
}

/// A deletion of what is not there is answered with 404 and changes
/// nothing; after a deletion answered with 200, a lookup of the same
/// identity is answered with 404.
pub proof fn lemma_deleted_pod_is_not_found<P: Provider>(
    before: Map<PodKey, PodView>,
    prov: &P,
    id: PodIdentity,
    deleted: Response,
    got: Response,
)
    requires
        answers_command(before, prov.pods(), Command::DeletePod(id), deleted),
        answers_query(prov, Query::GetPod(id), got),
    ensures
        !before.contains_key(id@) ==> deleted.status == 404 && prov.pods() == before,
        deleted.status == STATUS_OK ==> got.status == 404,
        got.status == 404 ==> got.body is Failure && got.body->Failure_0
            == ErrorKind::NotFound,
{
    lemma_command_answer(before, prov.pods(), Command::DeletePod(id), deleted);
    lemma_query_answer(prov, Query::GetPod(id), got);
}

/// The operations that describe the node are answered with 200 by every
/// backend in every state, with no pod operation before them.
pub proof fn lemma_node_queries_succeed<P: Provider>(prov: &P, query: Query, resp: Response)
    requires
        answers_query(prov, query, resp),
        query is Capacity || query is NodeConditions || query is NodeAddresses
            || query is NodeDaemonEndpoints || query is OperatingSystem,
    ensures
        resp.status == STATUS_OK,
        !(resp.body is Failure),
{
}

/// The operations that address no pod ask for no parameter: none of them is
/// ever refused as invalid.
pub proof fn lemma_unscoped_always_complete(op: Operation, params: Params)
    requires
        !is_pod_scoped(op),
    ensures
        complete(op, params),
{
}

} // verus!
