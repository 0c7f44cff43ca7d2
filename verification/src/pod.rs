//! Pods, their identities, and the records that describe a node.

use vstd::prelude::*;
use vstd::string::*;
use crate::text::same_text;

verus! {

/// The views of the items of a sequence, in order.
pub open spec fn views<T: View>(s: Seq<T>) -> Seq<T::V> {
    Seq::new(s.len(), |i: int| s[i]@)
}

/// A value that can be copied with its view kept.
pub trait Duplicate: View + Sized {
    /// A copy with the same view.
    fn duplicate(&self) -> (copy: Self)
        ensures
            copy@ == self@,
    ;
}

impl Duplicate for String {
    fn duplicate(&self) -> (copy: String) {
        self.clone()
    }
}

impl Duplicate for u8 {
    fn duplicate(&self) -> (copy: u8) {
        *self
    }
}

/// A copy of a vector, item by item.
pub fn copy_all<T: Duplicate>(items: &Vec<T>) -> (copy: Vec<T>)
    ensures
        views(copy@) == views(items@),
        copy@.len() == items@.len(),
{
    let mut copy: Vec<T> = Vec::new();
    let mut i: usize = 0;
    while i < items.len()
        invariant
            i <= items.len(),
            copy@.len() == i,
            forall|j: int| 0 <= j < i ==> (#[trigger] copy@[j])@ == items@[j]@,
        decreases items.len() - i,
    {
        copy.push(items[i].duplicate());
        i += 1;
    }
    proof {
        assert(views(copy@) =~= views(items@));
    }
    copy
}

/// What addresses a pod: its namespace and its name, as characters.
pub struct PodKey {
    pub namespace: Seq<char>,
    pub name: Seq<char>,
}

/// What addresses a pod: its namespace and its name.
#[derive(Debug)]
pub struct PodIdentity {
    pub namespace: String,
    pub name: String,
}

impl View for PodIdentity {
    type V = PodKey;

    open spec fn view(&self) -> PodKey {
        PodKey { namespace: self.namespace@, name: self.name@ }
    }
}

impl Duplicate for PodIdentity {
    fn duplicate(&self) -> (copy: PodIdentity) {
        PodIdentity { namespace: self.namespace.clone(), name: self.name.clone() }
    }
}

impl PodIdentity {
    /// The identity made of a namespace and a name.
    pub fn new(namespace: &str, name: &str) -> (id: PodIdentity)
        ensures
            id@ == (PodKey { namespace: namespace@, name: name@ }),
    {
        PodIdentity { namespace: String::from_str(namespace), name: String::from_str(name) }
    }

    /// Whether two identities address the same pod.
    pub fn same(&self, other: &PodIdentity) -> (same: bool)
        ensures
            same == (self@ == other@),
    {
        self.namespace == other.namespace && self.name == other.name
    }
}

/// A pod as contracts see it.
pub struct PodView {
    pub key: PodKey,
    pub containers: Seq<Seq<char>>,
    pub document: Seq<u8>,
}

/// A pod: its identity, the names of its containers, and its specification,
/// a document that only the backend reads.
#[derive(Debug)]
pub struct Pod {
    pub identity: PodIdentity,
    pub containers: Vec<String>,
    pub document: Vec<u8>,
}

impl View for Pod {
    type V = PodView;

    open spec fn view(&self) -> PodView {
        PodView {
            key: self.identity@,
            containers: views(self.containers@),
            document: self.document@,
        }
    }
}

impl Duplicate for Pod {
    fn duplicate(&self) -> (copy: Pod) {
        let document = copy_all(&self.document);
        proof {
            assert(document@ =~= views(document@));
            assert(self.document@ =~= views(self.document@));
        }
        Pod {
            identity: self.identity.duplicate(),
            containers: copy_all(&self.containers),
            document,
        }
    }
}

impl Pod {
    /// Whether the pod has a container of the given name.
    pub fn has_container(&self, name: &str) -> (has: bool)
        ensures
            has == self@.containers.contains(name@),
    {
        let mut i: usize = 0;
        while i < self.containers.len()
            invariant
                i <= self.containers.len(),
                forall|j: int| 0 <= j < i ==> (#[trigger] self.containers@[j])@ != name@,
            decreases self.containers.len() - i,
        {
            if same_text(self.containers[i].as_str(), name) {
                proof {
                    assert(self@.containers[i as int] == name@);
                }
                return true;
            }
            i += 1;
        }
        proof {
            assert forall|j: int| 0 <= j < self@.containers.len() implies self@.containers[j]
                != name@ by {
                assert(self@.containers[j] == self.containers@[j]@);
            }
        }
        false
    }
}

/// Where a pod stands in its life.
#[derive(Clone, Copy, Debug, PartialEq, Eq, Structural)]
pub enum Phase {
    Pending,
    Running,
    Succeeded,
    Failed,
    Unknown,
}

/// The name of a phase.
pub open spec fn phase_name(phase: Phase) -> Seq<char> {
    match phase {
        Phase::Pending => "Pending"@,
        Phase::Running => "Running"@,
        Phase::Succeeded => "Succeeded"@,
        Phase::Failed => "Failed"@,
        Phase::Unknown => "Unknown"@,
    }
}

impl Phase {
    /// The name of the phase.
    pub fn name(self) -> (name: &'static str)
        ensures
            name@ == phase_name(self),
    {
        match self {
            Phase::Pending => "Pending",
            Phase::Running => "Running",
            Phase::Succeeded => "Succeeded",
            Phase::Failed => "Failed",
            Phase::Unknown => "Unknown",
        }
    }
}

/// A pod's current status: its phase and how many of its containers run.
#[derive(Clone, Copy, Debug, PartialEq, Eq, Structural)]
pub struct PodStatus {
    pub phase: Phase,
    pub running_containers: u32,
}

/// Which part of a container's log is asked for.
#[derive(Clone, Copy, Debug, PartialEq, Eq, Structural)]
pub struct LogOptions {
    /// Only the last lines, this many.
    pub tail: Option<u64>,
    /// Only what was logged in the last seconds, this many.
    pub since_seconds: Option<u64>,
    /// Whether to go on as the log grows.
    pub follow: bool,
}

/// One resource of a node's capacity as contracts see it.
pub struct ResourceView {
    pub name: Seq<char>,
    pub quantity: u64,
}

/// One resource of a node's capacity: its name and how much of it there is.
#[derive(Debug)]
pub struct Resource {
    pub name: String,
    pub quantity: u64,
}

impl View for Resource {
    type V = ResourceView;

    open spec fn view(&self) -> ResourceView {
        ResourceView { name: self.name@, quantity: self.quantity }
    }
}

impl Duplicate for Resource {
    fn duplicate(&self) -> (copy: Resource) {
        Resource { name: self.name.clone(), quantity: self.quantity }
    }
}

/// One condition of a node as contracts see it.
pub struct NodeConditionView {
    pub kind: Seq<char>,
    pub status: bool,
    pub reason: Seq<char>,
    pub message: Seq<char>,
    pub last_heartbeat: u64,
    pub last_transition: u64,
}

/// One condition of a node: its type, whether it holds, why, and since when.
#[derive(Debug)]
pub struct NodeCondition {
    pub kind: String,
    pub status: bool,
    pub reason: String,
    pub message: String,
    pub last_heartbeat: u64,
    pub last_transition: u64,
}

impl View for NodeCondition {
    type V = NodeConditionView;

    open spec fn view(&self) -> NodeConditionView {
        NodeConditionView {
            kind: self.kind@,
            status: self.status,
            reason: self.reason@,
            message: self.message@,
            last_heartbeat: self.last_heartbeat,
            last_transition: self.last_transition,
        }
    }
}

impl Duplicate for NodeCondition {
    fn duplicate(&self) -> (copy: NodeCondition) {
        NodeCondition {
            kind: self.kind.clone(),
            status: self.status,
            reason: self.reason.clone(),
            message: self.message.clone(),
            last_heartbeat: self.last_heartbeat,
            last_transition: self.last_transition,
        }
    }
}

/// One address of a node as contracts see it.
pub struct NodeAddressView {
    pub kind: Seq<char>,
    pub address: Seq<char>,
}

/// One address of a node: its type and its value.
#[derive(Debug)]
pub struct NodeAddress {
    pub kind: String,
    pub address: String,
}

impl View for NodeAddress {
    type V = NodeAddressView;

    open spec fn view(&self) -> NodeAddressView {
        NodeAddressView { kind: self.kind@, address: self.address@ }
    }
}

impl Duplicate for NodeAddress {
    fn duplicate(&self) -> (copy: NodeAddress) {
        NodeAddress { kind: self.kind.clone(), address: self.address.clone() }
    }
}

/// The ports on which a backend's own services answer.
#[derive(Clone, Copy, Debug, PartialEq, Eq, Structural)]
pub struct DaemonEndpoints {
    /// The port that streams logs.
    pub kubelet_port: u32,
}

} // verus!
