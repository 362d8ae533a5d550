//! Bookkeeping for the background-task supervisor.
//!
//! The supervisor owns every long-running unit of work: the long-lived tasks
//! that must not exit before the whole process does, and the temporary tasks
//! that live and die on their own, keyed by a monotonically increasing id.
//! The handles themselves are opaque here; the caller runs the tasks and the
//! completion race, while this module answers, with proofs, the questions the
//! race depends on: which handles are in the snapshot, which ids a batch of
//! temporary tasks received, and which siblings must be aborted once the
//! first task of a snapshot has exited.

use vstd::prelude::*;
use std::collections::HashMap;

verus! {

broadcast use vstd::std_specs::hash::group_hash_axioms;

/// Why a supervised task left the running set. A panic is reported through
/// the same path as an ordinary error completion, only with its own cause.
#[derive(Clone, Copy, PartialEq, Eq, Structural, Debug)]
pub enum ExitCause {
    Completed,
    Failed,
    Panicked,
}

/// What supervision reports once the first task of a snapshot has exited:
/// the index of that task within the snapshot, and why it exited.
#[derive(Clone, Copy, PartialEq, Eq, Structural, Debug)]
pub struct SuperviseReport {
    pub index: usize,
    pub cause: ExitCause,
}

/// Owns the handles of running background tasks. `H` is the caller's handle
/// type; the supervisor never looks inside a handle.
pub struct TaskSupervisor<H> {
    long_lived: Vec<H>,
    temp_join_handles: HashMap<usize, H>,
    next_temp_id: usize,
}

impl<H> TaskSupervisor<H> {
    /// The long-lived handles, in the order they were added.
    pub closed spec fn long_lived_seq(&self) -> Seq<H> {
        self.long_lived@
    }

    /// The temporary handles, keyed by their assigned id.
    pub closed spec fn temp_map(&self) -> Map<usize, H> {
        self.temp_join_handles@
    }

    /// The id the next temporary task will receive.
    pub closed spec fn next_id(&self) -> usize {
        self.next_temp_id
    }

    /// Every id already handed out is below the counter, so ids are never
    /// reused.
    pub open spec fn wf(&self) -> bool {
        forall|k: usize| self.temp_map().contains_key(k) ==> k < self.next_id()
    }

    pub fn new() -> (s: Self)
        ensures
            s.long_lived_seq() == Seq::<H>::empty(),
            s.temp_map() == Map::<usize, H>::empty(),
            s.next_id() == 0,
            s.wf(),
    {
        TaskSupervisor {
            long_lived: Vec::new(),
            temp_join_handles: HashMap::new(),
            next_temp_id: 0,
        }
    }

    /// Append a batch of long-lived handles to the supervised set.
    pub fn add_join_handles(&mut self, handles: Vec<H>)
        requires
            old(self).wf(),
        ensures
            final(self).long_lived_seq() == old(self).long_lived_seq() + handles@,
            final(self).temp_map() == old(self).temp_map(),
            final(self).next_id() == old(self).next_id(),
            final(self).wf(),
    {
        let mut handles = handles;
        self.long_lived.append(&mut handles);
    }

    /// How many long-lived handles are currently supervised.
    pub fn long_lived_count(&self) -> (n: usize)
        ensures
            n == self.long_lived_seq().len(),
    {
        self.long_lived.len()
    }

    /// The id the next temporary task will receive.
    pub fn next_temp_id(&self) -> (id: usize)
        ensures
            id == self.next_id(),
    {
        self.next_temp_id
    }

    /// Whether a temporary task is tracked under this id.
    pub fn contains_temp_task(&self, id: usize) -> (r: bool)
        ensures
            r == self.temp_map().contains_key(id),
    {
        self.temp_join_handles.contains_key(&id)
    }

    /// Track a batch of temporary handles, assigning each the next id from
    /// the shared counter: the first handle of the batch gets the current
    /// counter value, and the counter moves past the whole batch.
    pub fn add_temp_join_handles(&mut self, handles: Vec<H>)
        requires
            old(self).wf(),
            old(self).next_id() + handles@.len() <= usize::MAX,
        ensures
            final(self).next_id() == old(self).next_id() + handles@.len(),
            final(self).long_lived_seq() == old(self).long_lived_seq(),
            final(self).temp_map() == old(self).temp_map().union_prefer_right(
                Map::<usize, H>::new(
                    |k: usize| old(self).next_id() <= k < old(self).next_id() + handles@.len(),
                    |k: usize| handles@[k - old(self).next_id()],
                ),
            ),
            final(self).wf(),
    {
        let ghost orig = *self;
        let ghost all = handles@;
        let mut handles = handles;
        while handles.len() > 0
            invariant
                orig.wf(),
                orig.next_id() + all.len() <= usize::MAX,
                handles@.len() <= all.len(),
                handles@ == all.subrange(all.len() - handles@.len(), all.len() as int),
                self.next_temp_id == orig.next_id() + all.len() - handles@.len(),
                self.long_lived == orig.long_lived,
                self.temp_join_handles@ == orig.temp_map().union_prefer_right(
                    Map::<usize, H>::new(
                        |k: usize| orig.next_id() <= k < orig.next_id() + all.len()
                            - handles@.len(),
                        |k: usize| all[k - orig.next_id()],
                    ),
                ),
            decreases handles@.len(),
        {
            let h = handles.remove(0);
            self.temp_join_handles.insert(self.next_temp_id, h);
            self.next_temp_id = self.next_temp_id + 1;
            proof {
                assert(self.temp_join_handles@ =~= orig.temp_map().union_prefer_right(
                    Map::<usize, H>::new(
                        |k: usize| orig.next_id() <= k < orig.next_id() + all.len()
                            - handles@.len(),
                        |k: usize| all[k - orig.next_id()],
                    ),
                ));
            }
        }
        proof {
            assert(handles@ =~= Seq::<H>::empty());
            assert(self.temp_map() =~= orig.temp_map().union_prefer_right(
                Map::<usize, H>::new(
                    |k: usize| orig.next_id() <= k < orig.next_id() + all.len(),
                    |k: usize| all[k - orig.next_id()],
                ),
            ));
        }
    }

    /// Atomically take ownership of the entire current long-lived set: the
    /// snapshot a supervision pass races to completion. Tasks added after
    /// this call land in a fresh set and are not covered by the pass — a
    /// deliberate simplification, not extended silently.
    pub fn take_long_lived(&mut self) -> (snapshot: Vec<H>)
        requires
            old(self).wf(),
        ensures
            snapshot@ == old(self).long_lived_seq(),
            final(self).long_lived_seq() == Seq::<H>::empty(),
            final(self).temp_map() == old(self).temp_map(),
            final(self).next_id() == old(self).next_id(),
            final(self).wf(),
    {
        let mut snapshot: Vec<H> = Vec::new();
        core::mem::swap(&mut snapshot, &mut self.long_lived);
        snapshot
    }
}

/// Once the task at `first_exit` has exited, every other task of a snapshot
/// of `count` tasks must be aborted. Returns the indices to abort, in
/// ascending order: exactly the indices below `count` other than
/// `first_exit`.
pub fn abort_targets(count: usize, first_exit: usize) -> (targets: Vec<usize>)
    requires
        first_exit < count,
    ensures
        targets@.len() == count - 1,
        forall|j: int| 0 <= j < targets@.len() ==> targets@[j] == (if j < first_exit {
            j
        } else {
            j + 1
        }),
{
    let mut targets: Vec<usize> = Vec::new();
    let mut i: usize = 0;
    while i < count
        invariant
            first_exit < count,
            i <= count,
            targets@.len() == (if i <= first_exit { i as int } else { i - 1 }),
            forall|j: int| 0 <= j < targets@.len() ==> targets@[j] == (if j < first_exit {
                j
            } else {
                j + 1
            }),
        decreases count - i,
    {
        if i != first_exit {
            targets.push(i);
        }
        i = i + 1;
    }
    targets
}

/// An abort pass reaches exactly the siblings: every task of the snapshot
/// other than the first to exit appears among the targets, and the first
/// to exit never does.
pub proof fn lemma_abort_targets_cover(targets: Seq<usize>, count: usize, first_exit: usize)
    requires
        first_exit < count,
        targets.len() == count - 1,
        forall|j: int| 0 <= j < targets.len() ==> targets[j] == (if j < first_exit {
            j
        } else {
            j + 1
        }),
    ensures
        forall|k: usize| k < count && k != first_exit ==> targets.contains(k),
        !targets.contains(first_exit),
{
    assert forall|k: usize| k < count && k != first_exit implies targets.contains(k) by {
        if k < first_exit {
            assert(targets[k as int] == k);
        } else {
            assert(targets[k - 1] == k);
        }
    }
    assert(!targets.contains(first_exit)) by {
        if targets.contains(first_exit) {
            let j = choose|j: int| 0 <= j < targets.len() && targets[j] == first_exit;
        }
    }
}

/// How one batch of temporary tasks changes the supervisor: the ids
/// `pre.next_id() .. pre.next_id() + n` were assigned, in order, and the
/// counter moved past them. This is the shape `add_temp_join_handles`
/// guarantees.
pub open spec fn temp_batch_step<H>(pre: TaskSupervisor<H>, post: TaskSupervisor<H>, n: nat) -> bool {
    &&& post.next_id() == pre.next_id() + n
    &&& forall|k: usize|
        post.temp_map().contains_key(k) <==> pre.temp_map().contains_key(k) || (pre.next_id() <= k
            < pre.next_id() + n)
}

/// What `add_temp_join_handles` ensures is one batch step: its contract
/// implies the relation the id laws are stated over.
pub proof fn lemma_add_temp_join_handles_step<H>(
    pre: TaskSupervisor<H>,
    post: TaskSupervisor<H>,
    handles: Seq<H>,
)
    requires
        post.next_id() == pre.next_id() + handles.len(),
        post.temp_map() == pre.temp_map().union_prefer_right(
            Map::<usize, H>::new(
                |k: usize| pre.next_id() <= k < pre.next_id() + handles.len(),
                |k: usize| handles[k - pre.next_id()],
            ),
        ),
    ensures
        temp_batch_step(pre, post, handles.len()),
{
}

/// The id counter never moves backwards along a chain of batches.
proof fn lemma_next_id_monotone<H>(
    states: Seq<TaskSupervisor<H>>,
    batches: Seq<nat>,
    a: int,
    b: int,
)
    requires
        states.len() == batches.len() + 1,
        forall|j: int|
            0 <= j < batches.len() ==> #[trigger] temp_batch_step(
                states[j],
                states[j + 1],
                batches[j],
            ),
        0 <= a <= b <= batches.len(),
    ensures
        states[a].next_id() <= states[b].next_id(),
    decreases b - a,
{
    if a < b {
        lemma_next_id_monotone(states, batches, a, b - 1);
        let j = b - 1;
        assert(temp_batch_step(states[j], states[j + 1], batches[j]));
    }
}

/// Temporary task ids are strictly increasing across calls: along any
/// chain of batches, every id assigned by a later batch is strictly
/// greater than every id assigned by an earlier one, regardless of what
/// completed in between.
pub proof fn lemma_temp_ids_strictly_increase<H>(
    states: Seq<TaskSupervisor<H>>,
    batches: Seq<nat>,
    k: int,
    l: int,
    i: usize,
    j: usize,
)
    requires
        states.len() == batches.len() + 1,
        forall|b: int|
            0 <= b < batches.len() ==> #[trigger] temp_batch_step(
                states[b],
                states[b + 1],
                batches[b],
            ),
        0 <= k < l < batches.len(),
        states[k].next_id() <= i < states[k].next_id() + batches[k],
        states[l].next_id() <= j < states[l].next_id() + batches[l],
    ensures
        i < j,
{
    assert(temp_batch_step(states[k], states[k + 1], batches[k]));
    lemma_next_id_monotone(states, batches, k + 1, l);
}

} // verus!
