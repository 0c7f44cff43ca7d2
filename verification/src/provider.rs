//! What every backend offers: the operations on pods and the description of
//! the node, each with what it promises.

use vstd::prelude::*;
use crate::error::{ErrorKind, ProviderError};
use crate::pod::{
    views, DaemonEndpoints, LogOptions, NodeAddress, NodeAddressView, NodeCondition,
    NodeConditionView, Pod, PodIdentity, PodKey, PodStatus, PodView, Resource, ResourceView,
};

verus! {

/// Whether `listed` holds each pod of `table` once, and nothing else.
pub open spec fn lists(listed: Seq<PodView>, table: Map<PodKey, PodView>) -> bool {
    &&& forall|i: int|
        0 <= i < listed.len() ==> table.contains_key((#[trigger] listed[i]).key)
            && table[listed[i].key] == listed[i]
    &&& forall|k: PodKey|
        table.contains_key(k) ==> exists|i: int|
            0 <= i < listed.len() && (#[trigger] listed[i]).key == k
    &&& forall|i: int, j: int|
        0 <= i < j < listed.len() ==> (#[trigger] listed[i]).key != (#[trigger] listed[j]).key
}

/// Whether a pod of that identity is known and has a container of that name.
pub open spec fn has_container(
    table: Map<PodKey, PodView>,
    key: PodKey,
    container: Seq<char>,
) -> bool {
    table.contains_key(key) && table[key].containers.contains(container)
}

/// Whether `e` reports that nothing answers to the identity given.
pub open spec fn is_not_found(e: ProviderError) -> bool {
    e.kind == ErrorKind::NotFound
}

/// What holds of a creation, whatever the backend: the table before and
/// after it, the pod, and the outcome.
pub open spec fn create_outcome(
    before: Map<PodKey, PodView>,
    after: Map<PodKey, PodView>,
    pod: PodView,
    done: Result<(), ProviderError>,
) -> bool {
    &&& before.contains_key(pod.key) ==> done is Err && done->Err_0.kind
        == ErrorKind::AlreadyExists
    &&& done is Ok ==> after == before.insert(pod.key, pod)
    &&& done is Err ==> after == before
}

/// What holds of an update, whatever the backend.
pub open spec fn update_outcome(
    before: Map<PodKey, PodView>,
    after: Map<PodKey, PodView>,
    pod: PodView,
    done: Result<(), ProviderError>,
) -> bool {
    &&& !before.contains_key(pod.key) ==> done is Err
    &&& done is Ok ==> after == before.insert(pod.key, pod)
    &&& done is Err ==> after == before
}

/// What holds of a deletion, whatever the backend.
pub open spec fn delete_outcome(
    before: Map<PodKey, PodView>,
    after: Map<PodKey, PodView>,
    key: PodKey,
    done: Result<(), ProviderError>,
) -> bool {
    &&& !before.contains_key(key) ==> done is Err && is_not_found(done->Err_0)
    &&& done is Ok ==> after == before.remove(key)
    &&& done is Err ==> after == before
}

/// What holds of a lookup, whatever the backend.
pub open spec fn get_outcome(
    table: Map<PodKey, PodView>,
    key: PodKey,
    got: Result<Pod, ProviderError>,
) -> bool {
    &&& !table.contains_key(key) ==> got is Err && is_not_found(got->Err_0)
    &&& got is Err && is_not_found(got->Err_0) ==> !table.contains_key(key)
    &&& got is Ok ==> table.contains_key(key) && got->Ok_0@ == table[key]
}

/// What holds of a status lookup, whatever the backend; `status` is the
/// status that the backend has for the pod.
pub open spec fn status_outcome(
    table: Map<PodKey, PodView>,
    status: PodStatus,
    key: PodKey,
    got: Result<PodStatus, ProviderError>,
) -> bool {
    &&& !table.contains_key(key) ==> got is Err && is_not_found(got->Err_0)
    &&& got is Err && is_not_found(got->Err_0) ==> !table.contains_key(key)
    &&& got is Ok ==> table.contains_key(key) && got->Ok_0 == status
}

/// What holds of a reading of logs, whatever the backend; `logged` is what
/// the backend has of the container's log.
pub open spec fn logs_outcome(
    table: Map<PodKey, PodView>,
    logged: Seq<u8>,
    key: PodKey,
    container: Seq<char>,
    got: Result<Vec<u8>, ProviderError>,
) -> bool {
    &&& !has_container(table, key, container) ==> got is Err && is_not_found(got->Err_0)
    &&& got is Err && is_not_found(got->Err_0) ==> !has_container(table, key, container)
    &&& got is Ok ==> got->Ok_0@ == logged
}

/// What holds of a listing, whatever the backend.
pub open spec fn list_outcome(
    table: Map<PodKey, PodView>,
    got: Result<Vec<Pod>, ProviderError>,
) -> bool {
    &&& table.dom() =~= Set::<PodKey>::empty() ==> got is Ok
    &&& got is Ok ==> lists(views(got->Ok_0@), table)
}

/// A backend that runs pods. The agent knows a backend only through these
/// operations; what a backend knows of its pods is `pods`, the table that the
/// contracts speak of.
pub trait Provider {
    /// The pods known to the backend, by identity.
    spec fn pods(&self) -> Map<PodKey, PodView>;

    /// The status of the pod of that identity.
    spec fn status(&self, key: PodKey) -> PodStatus;

    /// What a container of a pod has logged, as far as the options ask for it.
    spec fn logs(&self, key: PodKey, container: Seq<char>, options: LogOptions) -> Seq<u8>;

    /// The node's total capacity, resource by resource.
    spec fn node_capacity(&self) -> Seq<ResourceView>;

    /// The node's conditions, in order.
    spec fn conditions(&self) -> Seq<NodeConditionView>;

    /// The node's addresses.
    spec fn addresses(&self) -> Seq<NodeAddressView>;

    /// The ports of the backend's own services.
    spec fn endpoints(&self) -> DaemonEndpoints;

    /// The family of operating system that the node presents.
    spec fn os(&self) -> Seq<char>;

    /// Takes a new pod in. Fails with `AlreadyExists` where the identity is
    /// taken; a backend may refuse a pod for reasons of its own. Only a
    /// success changes the table.
    fn create_pod(&mut self, pod: Pod) -> (done: Result<(), ProviderError>)
        ensures
            create_outcome(old(self).pods(), final(self).pods(), pod@, done),
    ;

    /// Replaces the pod of the same identity. Fails where there is none; a
    /// backend may refuse for reasons of its own. Only a success changes the
    /// table.
    fn update_pod(&mut self, pod: Pod) -> (done: Result<(), ProviderError>)
        ensures
            update_outcome(old(self).pods(), final(self).pods(), pod@, done),
    ;

    /// Removes the pod of that identity. Fails with `NotFound` where there is
    /// none. Only a success changes the table.
    fn delete_pod(&mut self, id: &PodIdentity) -> (done: Result<(), ProviderError>)
        ensures
            delete_outcome(old(self).pods(), final(self).pods(), id@, done),
    ;

    /// The pod of that identity. Fails with `NotFound` exactly where there is
    /// none.
    fn get_pod(&self, id: &PodIdentity) -> (got: Result<Pod, ProviderError>)
        ensures
            get_outcome(self.pods(), id@, got),
    ;

    /// The status of the pod of that identity. Fails with `NotFound` exactly
    /// where there is none.
    fn get_pod_status(&self, id: &PodIdentity) -> (got: Result<PodStatus, ProviderError>)
        ensures
            status_outcome(self.pods(), self.status(id@), id@, got),
    ;

    /// Every pod known to the backend, each once, in no particular order.
    /// Does not fail where there is none.
    fn get_pods(&self) -> (got: Result<Vec<Pod>, ProviderError>)
        ensures
            list_outcome(self.pods(), got),
    ;

    /// What a container of a pod has logged. Fails with `NotFound` exactly
    /// where the pod, or the container in it, is not there.
    fn get_container_logs(
        &self,
        id: &PodIdentity,
        container: &str,
        options: LogOptions,
    ) -> (got: Result<Vec<u8>, ProviderError>)
        ensures
            logs_outcome(
                self.pods(),
                self.logs(id@, container@, options),
                id@,
                container@,
                got,
            ),
    ;

    /// The node's total capacity.
    fn capacity(&self) -> (got: Vec<Resource>)
        ensures
            views(got@) == self.node_capacity(),
    ;

    /// The node's conditions, in order.
    fn node_conditions(&self) -> (got: Vec<NodeCondition>)
        ensures
            views(got@) == self.conditions(),
    ;

    /// The node's addresses.
    fn node_addresses(&self) -> (got: Vec<NodeAddress>)
        ensures
            views(got@) == self.addresses(),
    ;

    /// The ports of the backend's own services.
    fn node_daemon_endpoints(&self) -> (got: DaemonEndpoints)
        ensures
            got == self.endpoints(),
    ;

    /// The family of operating system that the node presents.
    fn operating_system(&self) -> (got: String)
        ensures
            got@ == self.os(),
    ;
}

/// Two listings of one table hold the same pods, whatever their order: as
/// long as nothing changes the backend, every listing agrees with every
/// other.
pub proof fn lemma_listings_agree(
    table: Map<PodKey, PodView>,
    first: Seq<PodView>,
    second: Seq<PodView>,
)
    requires
        lists(first, table),
        lists(second, table),
    ensures
        forall|pod: PodView| first.contains(pod) <==> second.contains(pod),
{
    assert forall|pod: PodView| first.contains(pod) implies second.contains(pod) by {
        let i = choose|i: int| 0 <= i < first.len() && first[i] == pod;
        assert(table.contains_key(first[i].key));
        let j = choose|j: int| 0 <= j < second.len() && (#[trigger] second[j]).key == pod.key;
        assert(table[second[j].key] == second[j]);
    }
    assert forall|pod: PodView| second.contains(pod) implies first.contains(pod) by {
        let i = choose|i: int| 0 <= i < second.len() && second[i] == pod;
        assert(table.contains_key(second[i].key));
        let j = choose|j: int| 0 <= j < first.len() && (#[trigger] first[j]).key == pod.key;
        assert(table[first[j].key] == first[j]);
    }
}

/// After a creation that succeeded, a lookup of the same identity does not
/// report `NotFound`, and the pod it returns is the one created, under the
/// same identity.
pub proof fn lemma_create_then_get(
    before: Map<PodKey, PodView>,
    after: Map<PodKey, PodView>,
    pod: PodView,
    done: Result<(), ProviderError>,
    got: Result<Pod, ProviderError>,
)
    requires
        create_outcome(before, after, pod, done),
        done is Ok,
        get_outcome(after, pod.key, got),
    ensures
        !before.contains_key(pod.key),
        after.contains_key(pod.key),
        !(got is Err && is_not_found(got->Err_0)),
        got is Ok ==> got->Ok_0@ == pod && got->Ok_0@.key == pod.key,
{
}

/// After a creation that succeeded, a second creation under the same
/// identity fails with `AlreadyExists` and changes nothing.
pub proof fn lemma_create_twice(
    before: Map<PodKey, PodView>,
    between: Map<PodKey, PodView>,
    after: Map<PodKey, PodView>,
    first: PodView,
    second: PodView,
    done_first: Result<(), ProviderError>,
    done_second: Result<(), ProviderError>,
)
    requires
        create_outcome(before, between, first, done_first),
        done_first is Ok,
        second.key == first.key,
        create_outcome(between, after, second, done_second),
    ensures
        done_second is Err,
        done_second->Err_0.kind == ErrorKind::AlreadyExists,
        after == between,
{
}

/// Deleting an identity that is not there fails with `NotFound` and changes
/// nothing.
pub proof fn lemma_delete_absent(
    before: Map<PodKey, PodView>,
    after: Map<PodKey, PodView>,
    key: PodKey,
    done: Result<(), ProviderError>,
)
    requires
        delete_outcome(before, after, key, done),
        !before.contains_key(key),
    ensures
        done is Err,
        is_not_found(done->Err_0),
        after == before,
{
}

/// After a deletion that succeeded, a lookup of the same identity fails with
/// `NotFound`.
pub proof fn lemma_delete_then_get(
    before: Map<PodKey, PodView>,
    after: Map<PodKey, PodView>,
    key: PodKey,
    done: Result<(), ProviderError>,
    got: Result<Pod, ProviderError>,
)
    requires
        delete_outcome(before, after, key, done),
        done is Ok,
        get_outcome(after, key, got),
    ensures
        got is Err,
        is_not_found(got->Err_0),
{
}

} // verus!
