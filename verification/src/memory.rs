//! A backend that keeps its pods in memory and runs nothing.

use vstd::prelude::*;
use vstd::string::*;
use crate::error::{ErrorKind, ProviderError};
use crate::pod::{
    copy_all, views, DaemonEndpoints, Duplicate, LogOptions, NodeAddress, NodeAddressView,
    NodeCondition, NodeConditionView, Phase, Pod, PodIdentity, PodKey, PodStatus, PodView,
    Resource, ResourceView,
};
use crate::provider::{has_container, is_not_found, lists, Provider};

verus! {

/// Whether no two pods of the sequence share an identity.
pub open spec fn distinct(s: Seq<PodView>) -> bool {
    forall|i: int, j: int|
        0 <= i < j < s.len() ==> (#[trigger] s[i]).key != (#[trigger] s[j]).key
}

/// Whether some pod of the sequence has that identity.
pub open spec fn holds(s: Seq<PodView>, k: PodKey) -> bool {
    exists|i: int| 0 <= i < s.len() && (#[trigger] s[i]).key == k
}

/// Where in the sequence a pod of that identity stands.
pub open spec fn place(s: Seq<PodView>, k: PodKey) -> int {
    choose|i: int| 0 <= i < s.len() && (#[trigger] s[i]).key == k
}

/// The table that a sequence of pods stands for.
pub open spec fn table_of(s: Seq<PodView>) -> Map<PodKey, PodView> {
    Map::new(|k: PodKey| holds(s, k), |k: PodKey| s[place(s, k)])
}

/// In a sequence without repeated identities, each pod is the table's entry
/// for its identity.
pub proof fn lemma_table_at(s: Seq<PodView>, i: int)
    requires
        distinct(s),
        0 <= i < s.len(),
    ensures
        table_of(s).contains_key(s[i].key),
        table_of(s)[s[i].key] == s[i],
{
    assert(holds(s, s[i].key));
    let j = place(s, s[i].key);
    assert(j == i) by {
        if j < i {
            assert(s[j].key != s[i].key);
        } else if i < j {
            assert(s[i].key != s[j].key);
        }
    }
}

/// A sequence without repeated identities lists its own table.
pub proof fn lemma_table_lists(s: Seq<PodView>)
    requires
        distinct(s),
    ensures
        lists(s, table_of(s)),
{
    assert forall|i: int| 0 <= i < s.len() implies table_of(s).contains_key(
        (#[trigger] s[i]).key,
    ) && table_of(s)[s[i].key] == s[i] by {
        lemma_table_at(s, i);
    }
    assert forall|k: PodKey| table_of(s).contains_key(k) implies exists|i: int|
        0 <= i < s.len() && (#[trigger] s[i]).key == k by {
        assert(holds(s, k));
    }
}

/// Appending a pod of a new identity inserts it into the table.
pub proof fn lemma_table_push(s: Seq<PodView>, p: PodView)
    requires
        distinct(s),
        !holds(s, p.key),
    ensures
        distinct(s.push(p)),
        table_of(s.push(p)) == table_of(s).insert(p.key, p),
{
    let t = s.push(p);
    assert forall|i: int, j: int| 0 <= i < j < t.len() implies (#[trigger] t[i]).key != (
    #[trigger] t[j]).key by {
        if j < s.len() {
            assert(s[i].key != s[j].key);
        } else {
            assert(t[i] == s[i]);
        }
    }
    assert forall|k: PodKey| holds(t, k) <==> (holds(s, k) || k == p.key) by {
        if holds(s, k) {
            let i = place(s, k);
            assert(t[i].key == k);
        }
        if k == p.key {
            assert(t[s.len() as int].key == k);
        }
        if holds(t, k) {
            let i = place(t, k);
            if i < s.len() {
                assert(s[i].key == k);
            }
        }
    }
    assert forall|k: PodKey| holds(t, k) implies #[trigger] table_of(t)[k] == table_of(
        s,
    ).insert(p.key, p)[k] by {
        let i = place(t, k);
        lemma_table_at(t, i);
        if i < s.len() {
            assert(t[i] == s[i]);
            lemma_table_at(s, i);
        }
    }
    assert(table_of(t) =~= table_of(s).insert(p.key, p));
}

/// Replacing a pod by one of the same identity replaces the table's entry.
pub proof fn lemma_table_update(s: Seq<PodView>, at: int, p: PodView)
    requires
        distinct(s),
        0 <= at < s.len(),
        s[at].key == p.key,
    ensures
        distinct(s.update(at, p)),
        table_of(s.update(at, p)) == table_of(s).insert(p.key, p),
{
    let t = s.update(at, p);
    assert forall|i: int, j: int| 0 <= i < j < t.len() implies (#[trigger] t[i]).key != (
    #[trigger] t[j]).key by {
        assert(s[i].key != s[j].key);
    }
    assert forall|k: PodKey| holds(t, k) <==> (holds(s, k) || k == p.key) by {
        if holds(s, k) {
            let i = place(s, k);
            assert(t[i].key == k);
        }
        if k == p.key {
            assert(t[at].key == k);
        }
        if holds(t, k) {
            let i = place(t, k);
            assert(s[i].key == k);
        }
    }
    assert forall|k: PodKey| holds(t, k) implies #[trigger] table_of(t)[k] == table_of(
        s,
    ).insert(p.key, p)[k] by {
        let i = place(t, k);
        lemma_table_at(t, i);
        if i != at {
            assert(t[i] == s[i]);
            lemma_table_at(s, i);
            assert(s[i].key != s[at].key);
        }
    }
    assert(table_of(t) =~= table_of(s).insert(p.key, p));
}

/// Taking a pod out of the sequence removes its identity from the table.
pub proof fn lemma_table_remove(s: Seq<PodView>, at: int)
    requires
        distinct(s),
        0 <= at < s.len(),
    ensures
        distinct(s.remove(at)),
        table_of(s.remove(at)) == table_of(s).remove(s[at].key),
{
    let t = s.remove(at);
    let gone = s[at].key;
    assert forall|i: int| 0 <= i < t.len() implies #[trigger] t[i] == s[if i < at {
        i
    } else {
        i + 1
    }] by {}
    assert forall|i: int, j: int| 0 <= i < j < t.len() implies (#[trigger] t[i]).key != (
    #[trigger] t[j]).key by {
        let a = if i < at { i } else { i + 1 };
        let b = if j < at { j } else { j + 1 };
        assert(s[a].key != s[b].key);
    }
    assert forall|k: PodKey| holds(t, k) <==> (holds(s, k) && k != gone) by {
        if holds(s, k) && k != gone {
            let i = place(s, k);
            if i < at {
                assert(t[i].key == k);
            } else {
                assert(i > at);
                assert(t[i - 1].key == k);
            }
        }
        if holds(t, k) {
            let i = place(t, k);
            let a = if i < at { i } else { i + 1 };
            assert(s[a].key == k);
            if a < at {
                assert(s[a].key != s[at].key);
            } else {
                assert(s[at].key != s[a].key);
            }
        }
    }
    assert forall|k: PodKey| holds(t, k) implies #[trigger] table_of(t)[k] == table_of(
        s,
    ).remove(gone)[k] by {
        let i = place(t, k);
        lemma_table_at(t, i);
        let a = if i < at { i } else { i + 1 };
        lemma_table_at(s, a);
    }
    assert(table_of(t) =~= table_of(s).remove(gone));
}

/// A backend that keeps its pods in memory. It takes every pod whose identity
/// is free, runs none of them, and describes the node as it was told to.
pub struct MemoryProvider {
    pods: Vec<Pod>,
    capacity: Vec<Resource>,
    conditions: Vec<NodeCondition>,
    addresses: Vec<NodeAddress>,
    endpoints: DaemonEndpoints,
    os: String,
}

impl MemoryProvider {
    #[verifier::type_invariant]
    spec fn no_identity_twice(self) -> bool {
        distinct(views(self.pods@))
    }

    /// A backend without pods, for a node described by the arguments.
    pub fn new(
        capacity: Vec<Resource>,
        conditions: Vec<NodeCondition>,
        addresses: Vec<NodeAddress>,
        endpoints: DaemonEndpoints,
        os: String,
    ) -> (made: MemoryProvider)
        ensures
            made.pods() == Map::<PodKey, PodView>::empty(),
            made.node_capacity() == views(capacity@),
            made.conditions() == views(conditions@),
            made.addresses() == views(addresses@),
            made.endpoints() == endpoints,
            made.os() == os@,
    {
        let made = MemoryProvider {
            pods: Vec::new(),
            capacity,
            conditions,
            addresses,
            endpoints,
            os,
        };
        proof {
            assert(made.pods() =~= Map::<PodKey, PodView>::empty());
        }
        made
    }

    /// The pods in the order in which they were taken in.
    pub closed spec fn listing(&self) -> Seq<PodView> {
        views(self.pods@)
    }

    /// Where the pod of that identity stands, if there is one.
    fn find(&self, id: &PodIdentity) -> (at: Option<usize>)
        ensures
            at matches Some(i) ==> i < self.pods@.len() && self.pods@[i as int]@.key == id@,
            at is None ==> !holds(views(self.pods@), id@),
            at is Some <==> self.pods().contains_key(id@),
    {
        let mut i: usize = 0;
        while i < self.pods.len()
            invariant
                i <= self.pods.len(),
                forall|j: int| 0 <= j < i ==> (#[trigger] views(self.pods@)[j]).key != id@,
            decreases self.pods.len() - i,
        {
            if self.pods[i].identity.same(id) {
                proof {
                    assert(views(self.pods@)[i as int].key == id@);
                }
                return Some(i);
            }
            i += 1;
        }
        None
    }
}

impl Provider for MemoryProvider {
    closed spec fn pods(&self) -> Map<PodKey, PodView> {
        table_of(views(self.pods@))
    }

    /// A pod that nothing runs is pending, with no container running.
    open spec fn status(&self, key: PodKey) -> PodStatus {
        PodStatus { phase: Phase::Pending, running_containers: 0 }
    }

    /// A container that never ran has logged nothing.
    open spec fn logs(&self, key: PodKey, container: Seq<char>, options: LogOptions) -> Seq<u8> {
        Seq::empty()
    }

    closed spec fn node_capacity(&self) -> Seq<ResourceView> {
        views(self.capacity@)
    }

    closed spec fn conditions(&self) -> Seq<NodeConditionView> {
        views(self.conditions@)
    }

    closed spec fn addresses(&self) -> Seq<NodeAddressView> {
        views(self.addresses@)
    }

    closed spec fn endpoints(&self) -> DaemonEndpoints {
        self.endpoints
    }

    closed spec fn os(&self) -> Seq<char> {
        self.os@
    }

    /// Takes the pod in exactly where its identity is free.
    fn create_pod(&mut self, pod: Pod) -> (done: Result<(), ProviderError>)
        ensures
            done is Ok <==> !old(self).pods().contains_key(pod@.key),
            final(self).node_capacity() == old(self).node_capacity(),
            final(self).conditions() == old(self).conditions(),
            final(self).addresses() == old(self).addresses(),
            final(self).endpoints() == old(self).endpoints(),
            final(self).os() == old(self).os(),
    {
        proof {
            use_type_invariant(&*self);
        }
        if self.find(&pod.identity).is_some() {
            return Err(ProviderError::new(ErrorKind::AlreadyExists, "the pod already exists"));
        }
        let mut pods: Vec<Pod> = Vec::new();
        std::mem::swap(&mut pods, &mut self.pods);
        proof {
            lemma_table_push(views(pods@), pod@);
            assert(views(pods@.push(pod)) =~= views(pods@).push(pod@));
        }
        pods.push(pod);
        self.pods = pods;
        Ok(())
    }

    /// Replaces the pod exactly where one of its identity is there, as often
    /// as it is asked to; fails with `NotFound` otherwise.
    fn update_pod(&mut self, pod: Pod) -> (done: Result<(), ProviderError>)
        ensures
            done is Ok <==> old(self).pods().contains_key(pod@.key),
            done is Err ==> is_not_found(done->Err_0),
            final(self).node_capacity() == old(self).node_capacity(),
            final(self).conditions() == old(self).conditions(),
            final(self).addresses() == old(self).addresses(),
            final(self).endpoints() == old(self).endpoints(),
            final(self).os() == old(self).os(),
    {
        proof {
            use_type_invariant(&*self);
        }
        match self.find(&pod.identity) {
            None => Err(ProviderError::new(ErrorKind::NotFound, "no such pod")),
            Some(at) => {
                let mut pods: Vec<Pod> = Vec::new();
                std::mem::swap(&mut pods, &mut self.pods);
                proof {
                    lemma_table_update(views(pods@), at as int, pod@);
                    assert(views(pods@.update(at as int, pod)) =~= views(pods@).update(
                        at as int,
                        pod@,
                    ));
                }
                pods.set(at, pod);
                self.pods = pods;
                Ok(())
            },
        }
    }

    /// Removes the pod exactly where one of that identity is there; fails
    /// with `NotFound` otherwise, so a second deletion of the same pod fails.
    fn delete_pod(&mut self, id: &PodIdentity) -> (done: Result<(), ProviderError>)
        ensures
            done is Ok <==> old(self).pods().contains_key(id@),
            final(self).node_capacity() == old(self).node_capacity(),
            final(self).conditions() == old(self).conditions(),
            final(self).addresses() == old(self).addresses(),
            final(self).endpoints() == old(self).endpoints(),
            final(self).os() == old(self).os(),
    {
        proof {
            use_type_invariant(&*self);
        }
        match self.find(id) {
            None => Err(ProviderError::new(ErrorKind::NotFound, "no such pod")),
            Some(at) => {
                let mut pods: Vec<Pod> = Vec::new();
                std::mem::swap(&mut pods, &mut self.pods);
                proof {
                    lemma_table_remove(views(pods@), at as int);
                    assert(views(pods@.remove(at as int)) =~= views(pods@).remove(at as int));
                }
                pods.remove(at);
                self.pods = pods;
                Ok(())
            },
        }
    }

    /// The pod of that identity, exactly where there is one.
    fn get_pod(&self, id: &PodIdentity) -> (got: Result<Pod, ProviderError>)
        ensures
            got is Ok <==> self.pods().contains_key(id@),
    {
        proof {
            use_type_invariant(self);
        }
        match self.find(id) {
            None => Err(ProviderError::new(ErrorKind::NotFound, "no such pod")),
            Some(at) => {
                proof {
                    lemma_table_at(views(self.pods@), at as int);
                }
                Ok(self.pods[at].duplicate())
            },
        }
    }

    /// The status of the pod of that identity, exactly where there is one.
    fn get_pod_status(&self, id: &PodIdentity) -> (got: Result<PodStatus, ProviderError>)
        ensures
            got is Ok <==> self.pods().contains_key(id@),
    {
        match self.find(id) {
            None => Err(ProviderError::new(ErrorKind::NotFound, "no such pod")),
            Some(_) => Ok(PodStatus { phase: Phase::Pending, running_containers: 0 }),
        }
    }

    /// Every pod, in the order in which they were taken in. Never fails, and
    /// gives the same listing as long as nothing changes the backend.
    fn get_pods(&self) -> (got: Result<Vec<Pod>, ProviderError>)
        ensures
            got is Ok,
            views(got->Ok_0@) == self.listing(),
    {
        proof {
            use_type_invariant(self);
            lemma_table_lists(views(self.pods@));
        }
        Ok(copy_all(&self.pods))
    }

    /// Nothing, exactly where the pod and the container in it are there.
    fn get_container_logs(
        &self,
        id: &PodIdentity,
        container: &str,
        options: LogOptions,
    ) -> (got: Result<Vec<u8>, ProviderError>)
        ensures
            got is Ok <==> has_container(self.pods(), id@, container@),
    {
        proof {
            use_type_invariant(self);
        }
        match self.find(id) {
            None => Err(ProviderError::new(ErrorKind::NotFound, "no such pod")),
            Some(at) => {
                proof {
                    lemma_table_at(views(self.pods@), at as int);
                }
                if self.pods[at].has_container(container) {
                    Ok(Vec::new())
                } else {
                    Err(ProviderError::new(ErrorKind::NotFound, "no such container"))
                }
            },
        }
    }

    fn capacity(&self) -> (got: Vec<Resource>) {
        copy_all(&self.capacity)
    }

    fn node_conditions(&self) -> (got: Vec<NodeCondition>) {
        copy_all(&self.conditions)
    }

    fn node_addresses(&self) -> (got: Vec<NodeAddress>) {
        copy_all(&self.addresses)
    }

    fn node_daemon_endpoints(&self) -> (got: DaemonEndpoints) {
        self.endpoints
    }

    fn operating_system(&self) -> (got: String) {
        self.os.clone()
    }
}

} // verus!
