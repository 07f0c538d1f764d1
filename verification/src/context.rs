//! The table of the tasks that are still running.

use crate::TaskId;
use std::collections::HashMap;
use tokio::task::JoinHandle;
use vstd::prelude::*;
use vstd::std_specs::iter::IteratorSpec;

verus! {

#[verifier::external_type_specification]
#[verifier::external_body]
#[verifier::reject_recursive_types(T)]
pub struct ExJoinHandle<T>(tokio::task::JoinHandle<T>);

// Nothing here names this type. Verus reads the `Future` impl of
// `JoinHandle`, whose output is a `Result` with this error, and refuses the
// handle unless the error is declared.
#[verifier::external_type_specification]
#[verifier::external_body]
pub struct ExJoinError(tokio::task::JoinError);

/// The handle of each task that was added and not removed since, under the
/// number of its task id.
pub struct TaskHandles {
    handles: HashMap<u64, JoinHandle<()>>,
}

impl View for TaskHandles {
    type V = Map<u64, JoinHandle<()>>;

    closed spec fn view(&self) -> Map<u64, JoinHandle<()>> {
        self.handles@
    }
}

impl Default for TaskHandles {
    fn default() -> (table: Self)
        ensures
            table@ == Map::<u64, JoinHandle<()>>::empty(),
            table@.dom().finite(),
    {
        Self { handles: HashMap::new() }
    }
}

/// Whether `handles` are the handles that `table` has under `ids`, in that
/// order, and `ids` are all the ids of `table`, each once.
pub open spec fn drained(
    table: Map<u64, JoinHandle<()>>,
    ids: Seq<u64>,
    handles: Seq<JoinHandle<()>>,
) -> bool {
    &&& ids.no_duplicates()
    &&& ids.to_set() == table.dom()
    &&& handles.len() == ids.len()
    &&& forall|i: int| 0 <= i < ids.len() ==> handles[i] == table[#[trigger] ids[i]]
}

/// What is drained is what the table held: a task is among the drained ones
/// if and only if it was in the table then. One that is added later is not.
pub proof fn law_drain_takes_present_tasks(
    table: Map<u64, JoinHandle<()>>,
    ids: Seq<u64>,
    handles: Seq<JoinHandle<()>>,
    id: u64,
)
    requires
        drained(table, ids, handles),
    ensures
        ids.contains(id) <==> table.contains_key(id),
        ids.len() == table.dom().len(),
{
    assert(ids.to_set().contains(id) <==> ids.contains(id));
    ids.unique_seq_to_set();
}

impl TaskHandles {
    /// A table holds finitely many tasks, so its length is the number of its
    /// ids: one more after an id is added that was not there, one less after
    /// one is removed that was.
    pub proof fn law_table_is_finite(self)
        ensures
            self@.dom().finite(),
            forall|id: u64, handle: JoinHandle<()>|
                !self@.contains_key(id) ==> (#[trigger] self@.insert(id, handle)).len()
                    == self@.len() + 1,
            forall|id: u64, handle: JoinHandle<()>|
                self@.contains_key(id) ==> (#[trigger] self@.insert(id, handle)).len()
                    == self@.len(),
            forall|id: u64|
                self@.contains_key(id) ==> (#[trigger] self@.remove(id)).len() == self@.len() - 1,
            forall|id: u64| !self@.contains_key(id) ==> (#[trigger] self@.remove(id)) == self@,
    {
        broadcast use vstd::std_specs::hash::group_hash_axioms;

        assert forall|id: u64| !self@.contains_key(id) implies (#[trigger] self@.remove(id))
            == self@ by {
            assert(self@.remove(id) =~= self@);
        }
    }

    /// Puts the handle of a task into the table, in place of one that was
    /// there under the same id.
    pub fn add(&mut self, id: TaskId, handle: JoinHandle<()>)
        ensures
            final(self)@ == old(self)@.insert(id@, handle),
            final(self)@.dom().finite(),
            final(self)@.len() == old(self)@.len() + (if old(self)@.contains_key(id@) {
                0int
            } else {
                1int
            }),
    {
        broadcast use vstd::std_specs::hash::group_hash_axioms;

        self.handles.insert(id.0, handle);
    }

    /// Takes the handle of a task out of the table, if it is there.
    pub fn remove(&mut self, id: &TaskId) -> (found: Option<JoinHandle<()>>)
        ensures
            found == (if old(self)@.contains_key(id@) {
                Some(old(self)@[id@])
            } else {
                None
            }),
            final(self)@ == old(self)@.remove(id@),
            final(self)@.dom().finite(),
            final(self)@.len() == old(self)@.len() - (if old(self)@.contains_key(id@) {
                1int
            } else {
                0int
            }),
    {
        broadcast use vstd::std_specs::hash::group_hash_axioms;

        self.handles.remove(&id.0)
    }

    /// Takes every handle out of the table: those that are in it now, and no
    /// other. A task that is added afterwards is not among them.
    pub fn take_all(&mut self) -> (handles: Vec<JoinHandle<()>>)
        ensures
            final(self)@ == Map::<u64, JoinHandle<()>>::empty(),
            exists|ids: Seq<u64>| drained(old(self)@, ids, handles@),
            handles@.len() == old(self)@.len(),
    {
        broadcast use vstd::std_specs::hash::group_hash_axioms;

        let ghost keys = self.handles.keys().remaining().unref();
        let mut ids: Vec<u64> = Vec::new();
        for id in iter: self.handles.keys()
            invariant
                keys == iter.seq().unref(),
                ids@ == keys.take(iter.index()),
        {
            ids.push(*id);
        }
        assert(ids@ =~= keys);
        assert forall|id: u64| ids@.contains(id) <==> old(self)@.contains_key(id) by {
            assert(ids@.to_set().contains(id) <==> ids@.contains(id));
        }
        let mut handles: Vec<JoinHandle<()>> = Vec::new();
        let mut done: usize = 0;
        while done < ids.len()
            invariant
                done <= ids.len(),
                ids@.no_duplicates(),
                forall|id: u64| ids@.contains(id) <==> old(self)@.contains_key(id),
                forall|id: u64| #[trigger]
                    self.handles@.contains_key(id) <==> exists|i: int|
                        done <= i < ids.len() && ids@[i] == id,
                forall|id: u64| #[trigger]
                    self.handles@.contains_key(id) ==> self.handles@[id] == old(self)@[id],
                handles@.len() == done,
                forall|i: int| 0 <= i < done ==> handles@[i] == old(self)@[#[trigger] ids@[i]],
            decreases ids.len() - done,
        {
            let id = ids[done];
            assert(self.handles@.contains_key(id));
            let ghost before = self.handles@;
            if let Some(handle) = self.handles.remove(&id) {
                handles.push(handle);
            }
            assert forall|other: u64| #[trigger]
                self.handles@.contains_key(other) implies exists|i: int|
                done + 1 <= i < ids.len() && ids@[i] == other by {
                let i = choose|i: int| done <= i < ids.len() && ids@[i] == other;
                assert(before.contains_key(other));
                assert(i != done);
            }
            done += 1;
        }
        assert(self.handles@ =~= Map::<u64, JoinHandle<()>>::empty());
        assert(ids@.to_set() =~= old(self)@.dom());
        assert(drained(old(self)@, ids@, handles@));
        handles
    }

    /// Whether no task is in the table.
    pub fn is_empty(&self) -> (empty: bool)
        ensures
            self@.dom().finite(),
            empty == (self@.len() == 0),
    {
        broadcast use vstd::std_specs::hash::group_hash_axioms;

        self.handles.is_empty()
    }

    /// How many tasks are in the table.
    pub fn len(&self) -> (count: usize)
        ensures
            self@.dom().finite(),
            count == self@.len(),
    {
        broadcast use vstd::std_specs::hash::group_hash_axioms;

        self.handles.len()
    }
}

} // verus!
