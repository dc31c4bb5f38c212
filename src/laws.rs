//! Laws that relate several operations of the library.
use crate::store::history_in;
use crate::task::{TaskProgress, TaskSpec};
use crate::task_queue::dequeue_step;
use crate::worker_registry::{updated_slots, Worker};
use vstd::prelude::*;

verus! {

/// Two accepted submissions in a row get different identities: the first
/// is recorded by the time the second is made, and an accepted identity was
/// never recorded before.
pub proof fn lemma_submissions_distinct(
    before: Map<Seq<char>, Seq<TaskProgress>>,
    first: Seq<char>,
    second: Seq<char>,
)
    requires
        !before.insert(first, Seq::<TaskProgress>::empty()).contains_key(second),
    ensures
        first != second,
{
    assert(before.insert(first, Seq::<TaskProgress>::empty()).contains_key(first));
}

/// Whether `stores` is a run of the gateway's task table in which each step
/// binds `keys[i]` to `vals[i]`, as every change the gateway makes does
/// (accepting a task, recording progress).
pub open spec fn is_store_run(
    stores: Seq<Map<Seq<char>, Seq<TaskProgress>>>,
    keys: Seq<Seq<char>>,
    vals: Seq<Seq<TaskProgress>>,
) -> bool {
    &&& stores.len() == keys.len() + 1
    &&& vals.len() == keys.len()
    &&& forall|i: int| 0 <= i < keys.len() ==> #[trigger] stores[i + 1] == stores[i].insert(keys[i], vals[i])
}

/// A task identity, once in the table, stays there for the rest of a run.
pub proof fn lemma_identity_persists(
    stores: Seq<Map<Seq<char>, Seq<TaskProgress>>>,
    keys: Seq<Seq<char>>,
    vals: Seq<Seq<TaskProgress>>,
    k: Seq<char>,
    i: int,
    j: int,
)
    requires
        is_store_run(stores, keys, vals),
        0 <= i <= j < stores.len(),
        stores[i].contains_key(k),
    ensures
        stores[j].contains_key(k),
    decreases j - i,
{
    if i < j {
        lemma_identity_persists(stores, keys, vals, k, i, j - 1);
        assert(stores[j - 1 + 1] == stores[j - 1].insert(keys[j - 1], vals[j - 1]));
    }
}

/// Identities are unique over the whole run: a step that accepts an
/// identity no task held (as `submit_task` does) never repeats the identity
/// of any earlier step, accepted or recorded.
pub proof fn lemma_accepted_identity_unique(
    stores: Seq<Map<Seq<char>, Seq<TaskProgress>>>,
    keys: Seq<Seq<char>>,
    vals: Seq<Seq<TaskProgress>>,
    i: int,
    j: int,
)
    requires
        is_store_run(stores, keys, vals),
        0 <= i < j < keys.len(),
        !stores[j].contains_key(keys[j]),
    ensures
        keys[i] != keys[j],
{
    assert(stores[i + 1] == stores[i].insert(keys[i], vals[i]));
    lemma_identity_persists(stores, keys, vals, keys[i], i + 1, j);
}

/// A slot update for an identity that was never registered leaves the
/// table as it was, so a later lookup still finds nothing.
pub proof fn lemma_update_unknown_is_noop(m: Map<Seq<char>, Worker>, id: Seq<char>, slots: i32)
    requires
        !m.contains_key(id),
    ensures
        updated_slots(m, id, slots) == m,
        !updated_slots(m, id, slots).contains_key(id),
{
}

/// Once a worker's session has closed and its entry is removed, a lookup of
/// its identity finds nothing.
pub proof fn lemma_removed_worker_not_found(m: Map<Seq<char>, Worker>, id: Seq<char>)
    ensures
        !m.remove(id).contains_key(id),
{
}

/// One operation on a single worker's queue.
pub enum QueueOp {
    Enqueue(TaskSpec),
    Dequeue,
}

/// The tasks handed out and the tasks still pending after running `ops`,
/// in order, on a queue that starts with `start`, each step as `enqueue`
/// and `dequeue` state it.
pub open spec fn run_queue(start: Seq<TaskSpec>, ops: Seq<QueueOp>) -> (Seq<TaskSpec>, Seq<TaskSpec>)
    decreases ops.len(),
{
    if ops.len() == 0 {
        (Seq::empty(), start)
    } else {
        let prev = run_queue(start, ops.drop_last());
        match ops.last() {
            QueueOp::Enqueue(t) => (prev.0, prev.1.push(t)),
            QueueOp::Dequeue => match dequeue_step(prev.1).0 {
                Some(t) => (prev.0.push(t), dequeue_step(prev.1).1),
                None => prev,
            },
        }
    }
}

/// The tasks that `ops` enqueue, in order.
pub open spec fn enqueued(ops: Seq<QueueOp>) -> Seq<TaskSpec>
    decreases ops.len(),
{
    if ops.len() == 0 {
        Seq::empty()
    } else {
        match ops.last() {
            QueueOp::Enqueue(t) => enqueued(ops.drop_last()).push(t),
            QueueOp::Dequeue => enqueued(ops.drop_last()),
        }
    }
}

/// First in, first out: over any interleaving of enqueues and dequeues on
/// one worker's queue, the tasks handed out followed by those still pending
/// are exactly the tasks that were there and those enqueued, in order.
pub proof fn lemma_queue_fifo(start: Seq<TaskSpec>, ops: Seq<QueueOp>)
    ensures
        run_queue(start, ops).0 + run_queue(start, ops).1 == start + enqueued(ops),
    decreases ops.len(),
{
    if ops.len() > 0 {
        lemma_queue_fifo(start, ops.drop_last());
        let prev = run_queue(start, ops.drop_last());
        match ops.last() {
            QueueOp::Enqueue(t) => {
                assert(prev.0 + prev.1.push(t) =~= (prev.0 + prev.1).push(t));
            },
            QueueOp::Dequeue => {
                if prev.1.len() > 0 {
                    assert(prev.0.push(prev.1[0]) + prev.1.drop_first() =~= prev.0 + prev.1);
                }
            },
        }
    }
}

/// The progress table after recording `events` one after another.
pub open spec fn record_all(m: Map<Seq<char>, Seq<TaskProgress>>, events: Seq<TaskProgress>) -> Map<
    Seq<char>,
    Seq<TaskProgress>,
>
    decreases events.len(),
{
    if events.len() == 0 {
        m
    } else {
        let prev = record_all(m, events.drop_last());
        let e = events.last();
        prev.insert(e.task_id@, history_in(prev, e.task_id@).push(e))
    }
}

/// Events recorded for a task are replayed in the order they were
/// recorded, after those recorded before them.
pub proof fn lemma_replay_in_order(
    m: Map<Seq<char>, Seq<TaskProgress>>,
    task_id: Seq<char>,
    events: Seq<TaskProgress>,
)
    requires
        forall|i: int| 0 <= i < events.len() ==> (#[trigger] events[i]).task_id@ == task_id,
    ensures
        record_all(m, events).contains_key(task_id) || (events.len() == 0 && !m.contains_key(task_id)),
        history_in(record_all(m, events), task_id) == history_in(m, task_id) + events,
    decreases events.len(),
{
    if events.len() == 0 {
        assert(history_in(m, task_id) + events =~= history_in(m, task_id));
    } else {
        let init = events.drop_last();
        assert forall|i: int| 0 <= i < init.len() implies (#[trigger] init[i]).task_id@ == task_id by {
            assert(init[i] == events[i]);
        }
        lemma_replay_in_order(m, task_id, init);
        assert(events.last() == events[events.len() - 1]);
        assert((history_in(m, task_id) + init).push(events.last()) =~= history_in(m, task_id) + events);
    }
}

} // verus!
