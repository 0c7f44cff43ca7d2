//! The pods a backend knows, told from the changes it carried out.

use vstd::prelude::*;
use crate::error::ProviderError;
use crate::pod::{PodKey, PodView};
use crate::provider::{create_outcome, delete_outcome, lists, update_outcome};

verus! {

/// A change that a backend carried out: a creation, an update or a deletion
/// that succeeded.
pub enum Change {
    Created(PodView),
    Updated(PodView),
    Deleted(PodKey),
}

/// The table after a change.
pub open spec fn apply(table: Map<PodKey, PodView>, change: Change) -> Map<PodKey, PodView> {
    match change {
        Change::Created(pod) => table.insert(pod.key, pod),
        Change::Updated(pod) => table.insert(pod.key, pod),
        Change::Deleted(key) => table.remove(key),
    }
}

/// Whether a backend with that table can carry the change out: it creates
/// only what is not there, and updates and deletes only what is.
pub open spec fn permitted(table: Map<PodKey, PodView>, change: Change) -> bool {
    match change {
        Change::Created(pod) => !table.contains_key(pod.key),
        Change::Updated(pod) => table.contains_key(pod.key),
        Change::Deleted(key) => table.contains_key(key),
    }
}

/// The table of a backend that started without pods and carried the changes
/// out in order.
pub open spec fn replay(changes: Seq<Change>) -> Map<PodKey, PodView>
    decreases changes.len(),
{
    if changes.len() == 0 {
        Map::empty()
    } else {
        apply(replay(changes.drop_last()), changes.last())
    }
}

/// Whether each change was permitted when it was carried out.
pub open spec fn legal(changes: Seq<Change>) -> bool {
    forall|i: int|
        0 <= i < changes.len() ==> permitted(replay(changes.take(i)), #[trigger] changes[i])
}

/// Whether the change creates a pod of that identity.
pub open spec fn creates(change: Change, key: PodKey) -> bool {
    change is Created && change->Created_0.key == key
}

/// Whether the change deletes the pod of that identity.
pub open spec fn deletes(change: Change, key: PodKey) -> bool {
    change is Deleted && change->Deleted_0 == key
}

/// Whether the change at `at` creates a pod of that identity which no later
/// change deletes.
pub open spec fn born(changes: Seq<Change>, at: int, key: PodKey) -> bool {
    &&& 0 <= at < changes.len()
    &&& creates(changes[at], key)
    &&& forall|j: int| at < j < changes.len() ==> !deletes(#[trigger] changes[j], key)
}

/// Whether a pod of that identity was created and not deleted since.
pub open spec fn alive(changes: Seq<Change>, key: PodKey) -> bool {
    exists|at: int| born(changes, at, key)
}

/// A creation that succeeded is a permitted change, and the table after it
/// is the table after that change.
pub proof fn lemma_creation_is_change(
    before: Map<PodKey, PodView>,
    after: Map<PodKey, PodView>,
    pod: PodView,
    done: Result<(), ProviderError>,
)
    requires
        create_outcome(before, after, pod, done),
        done is Ok,
    ensures
        permitted(before, Change::Created(pod)),
        after == apply(before, Change::Created(pod)),
{
}

/// An update that succeeded is a permitted change, and the table after it is
/// the table after that change.
pub proof fn lemma_update_is_change(
    before: Map<PodKey, PodView>,
    after: Map<PodKey, PodView>,
    pod: PodView,
    done: Result<(), ProviderError>,
)
    requires
        update_outcome(before, after, pod, done),
        done is Ok,
    ensures
        permitted(before, Change::Updated(pod)),
        after == apply(before, Change::Updated(pod)),
{
}

/// A deletion that succeeded is a permitted change, and the table after it
/// is the table after that change.
pub proof fn lemma_deletion_is_change(
    before: Map<PodKey, PodView>,
    after: Map<PodKey, PodView>,
    key: PodKey,
    done: Result<(), ProviderError>,
)
    requires
        delete_outcome(before, after, key, done),
        done is Ok,
    ensures
        permitted(before, Change::Deleted(key)),
        after == apply(before, Change::Deleted(key)),
{
}

/// A creation before the last change stays unrevoked exactly if it was so
/// before that change and the change does not delete the pod.
proof fn lemma_born_extends(changes: Seq<Change>, at: int, key: PodKey)
    requires
        0 <= at < changes.len() - 1,
    ensures
        born(changes, at, key) <==> (born(changes.drop_last(), at, key) && !deletes(
            changes.last(),
            key,
        )),
{
    let t = changes.drop_last();
    if born(changes, at, key) {
        assert(!deletes(changes[changes.len() - 1], key));
        assert forall|j: int| at < j < t.len() implies !deletes(#[trigger] t[j], key) by {
            assert(t[j] == changes[j]);
        }
    }
    if born(t, at, key) && !deletes(changes.last(), key) {
        assert(t[at] == changes[at]);
        assert forall|j: int| at < j < changes.len() implies !deletes(
            #[trigger] changes[j],
            key,
        ) by {
            if j < t.len() {
                assert(t[j] == changes[j]);
            }
        }
    }
}

/// Where the changes were permitted, so were all but the last, and the last
/// was permitted on the table that the others left.
proof fn lemma_legal_step(changes: Seq<Change>)
    requires
        legal(changes),
        changes.len() > 0,
    ensures
        legal(changes.drop_last()),
        permitted(replay(changes.drop_last()), changes.last()),
{
    let t = changes.drop_last();
    let n = changes.len() - 1;
    assert forall|i: int| 0 <= i < t.len() implies permitted(
        replay(t.take(i)),
        #[trigger] t[i],
    ) by {
        assert(t.take(i) =~= changes.take(i));
        assert(t[i] == changes[i]);
    }
    assert(changes.take(n) =~= t);
    assert(permitted(replay(changes.take(n)), changes[n]));
}

/// A pod is alive after the last change exactly if that change created it,
/// or it was alive before and that change does not delete it.
proof fn lemma_alive_step(changes: Seq<Change>, key: PodKey)
    requires
        changes.len() > 0,
    ensures
        alive(changes, key) <==> ((alive(changes.drop_last(), key) && !deletes(
            changes.last(),
            key,
        )) || creates(changes.last(), key)),
{
    let t = changes.drop_last();
    let c = changes.last();
    let n = changes.len() - 1;
    if alive(changes, key) {
        let i = choose|i: int| born(changes, i, key);
        if i < n {
            lemma_born_extends(changes, i, key);
            assert(born(t, i, key));
        } else {
            assert(creates(c, key));
        }
    }
    if alive(t, key) && !deletes(c, key) {
        let i = choose|i: int| born(t, i, key);
        lemma_born_extends(changes, i, key);
        assert(born(changes, i, key));
    }
    if creates(c, key) {
        assert(born(changes, n, key));
    }
}

/// The backend knows a pod of an identity exactly if one was created under it
/// and none was deleted under it since.
pub proof fn lemma_membership(changes: Seq<Change>, key: PodKey)
    requires
        legal(changes),
    ensures
        replay(changes).contains_key(key) <==> alive(changes, key),
    decreases changes.len(),
{
    if changes.len() == 0 {
        if alive(changes, key) {
            let i = choose|i: int| born(changes, i, key);
            assert(false);
        }
    } else {
        lemma_legal_step(changes);
        lemma_alive_step(changes, key);
        lemma_membership(changes.drop_last(), key);
    }
}

/// A listing of the backend's pods holds an identity exactly if a pod was
/// created under it and none was deleted under it since.
pub proof fn lemma_listing_exact(changes: Seq<Change>, listed: Seq<PodView>, key: PodKey)
    requires
        legal(changes),
        lists(listed, replay(changes)),
    ensures
        (exists|i: int| 0 <= i < listed.len() && (#[trigger] listed[i]).key == key) <==> alive(
            changes,
            key,
        ),
{
    lemma_membership(changes, key);
}

} // verus!
