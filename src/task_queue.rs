use crate::task::TaskSpec;
use dashmap::DashMap;
use std::collections::VecDeque;
use vstd::prelude::*;

verus! {

/// What a queue table holds: worker identity to its pending tasks, oldest first.
pub uninterp spec fn queue_entries(m: DashMap<String, VecDeque<TaskSpec>>) -> Map<
    Seq<char>,
    Seq<TaskSpec>,
>;

/// Relies on DashMap::new: a new map holds no entries.
#[verifier::external_body]
fn queue_map_new() -> (r: DashMap<String, VecDeque<TaskSpec>>)
    ensures
        queue_entries(r).dom() == Set::<Seq<char>>::empty(),
{
    DashMap::new()
}

/// Relies on DashMap::insert: the key is bound to the value, replacing any
/// earlier binding.
#[verifier::external_body]
fn queue_map_insert(m: &mut DashMap<String, VecDeque<TaskSpec>>, k: String, v: VecDeque<TaskSpec>)
    ensures
        queue_entries(*final(m)) == queue_entries(*old(m)).insert(k@, v@),
{
    m.insert(k, v);
}

/// Relies on DashMap::remove: takes the key's binding out of the map and
/// hands back the stored key and value.
#[verifier::external_body]
fn queue_map_remove(m: &mut DashMap<String, VecDeque<TaskSpec>>, k: &str) -> (r: Option<
    (String, VecDeque<TaskSpec>),
>)
    ensures
        queue_entries(*final(m)) == queue_entries(*old(m)).remove(k@),
        match r {
            Some(p) => queue_entries(*old(m)).contains_key(k@) && p.0@ == k@ && p.1@
                == queue_entries(*old(m))[k@],
            None => !queue_entries(*old(m)).contains_key(k@),
        },
{
    m.remove(k)
}

/// Relies on DashMap::get: reads the length of the queue bound to the key.
#[verifier::external_body]
fn queue_map_len_of(m: &DashMap<String, VecDeque<TaskSpec>>, k: &str) -> (r: Option<usize>)
    ensures
        match r {
            Some(n) => queue_entries(*m).contains_key(k@) && n as int == queue_entries(
                *m,
            )[k@].len(),
            None => !queue_entries(*m).contains_key(k@),
        },
{
    m.get(k).map(|e| pending_len(e.value()))
}

fn pending_len(q: &VecDeque<TaskSpec>) -> (r: usize)
    ensures
        r as int == q@.len(),
{
    q.len()
}

/// The pending tasks of `w` in `m`: none when `w` has no queue.
pub open spec fn pending_in(m: Map<Seq<char>, Seq<TaskSpec>>, w: Seq<char>) -> Seq<TaskSpec> {
    if m.contains_key(w) {
        m[w]
    } else {
        Seq::empty()
    }
}

/// One dequeue on a pending sequence: its oldest task, and what stays.
pub open spec fn dequeue_step(s: Seq<TaskSpec>) -> (Option<TaskSpec>, Seq<TaskSpec>) {
    if s.len() > 0 {
        (Some(s[0]), s.drop_first())
    } else {
        (None, s)
    }
}

/// Per-worker FIFO buffers of tasks waiting to be delivered.
pub struct TaskQueue {
    queue: DashMap<String, VecDeque<TaskSpec>>,
}

impl View for TaskQueue {
    type V = Map<Seq<char>, Seq<TaskSpec>>;

    closed spec fn view(&self) -> Map<Seq<char>, Seq<TaskSpec>> {
        queue_entries(self.queue)
    }
}

impl TaskQueue {
    pub open spec fn pending(&self, w: Seq<char>) -> Seq<TaskSpec> {
        pending_in(self@, w)
    }

    pub fn new() -> (r: TaskQueue)
        ensures
            r@.dom() == Set::<Seq<char>>::empty(),
    {
        TaskQueue { queue: queue_map_new() }
    }

    /// Appends the task to the worker's queue, creating the queue if absent.
    pub fn enqueue(&mut self, worker_id: String, task: TaskSpec)
        ensures
            final(self)@ == old(self)@.insert(worker_id@, old(self).pending(worker_id@).push(task)),
    {
        match queue_map_remove(&mut self.queue, worker_id.as_str()) {
            Some((key, mut q)) => {
                q.push_back(task);
                queue_map_insert(&mut self.queue, key, q);
            },
            None => {
                let mut q: VecDeque<TaskSpec> = VecDeque::new();
                q.push_back(task);
                proof {
                    assert(q@ =~= Seq::<TaskSpec>::empty().push(task));
                }
                queue_map_insert(&mut self.queue, worker_id, q);
            },
        }
        proof {
            assert(self@ =~= old(self)@.insert(worker_id@, old(self).pending(worker_id@).push(task)));
        }
    }

    /// Removes and returns the worker's oldest pending task; `None` when it
    /// has none, and then the queues are unchanged.
    pub fn dequeue(&mut self, worker_id: &str) -> (r: Option<TaskSpec>)
        ensures
            r == dequeue_step(old(self).pending(worker_id@)).0,
            final(self).pending(worker_id@) == dequeue_step(old(self).pending(worker_id@)).1,
            forall|w: Seq<char>| w != worker_id@ ==> #[trigger] final(self).pending(w) == old(self).pending(w),
            r is None ==> final(self)@ == old(self)@,
    {
        match queue_map_remove(&mut self.queue, worker_id) {
            Some((key, mut q)) => {
                let r = q.pop_front();
                queue_map_insert(&mut self.queue, key, q);
                proof {
                    if r is None {
                        assert(self@ =~= old(self)@);
                    }
                    assert forall|w: Seq<char>| w != worker_id@ implies #[trigger] self.pending(w) == old(self).pending(w) by {
                        assert(self@.contains_key(w) == old(self)@.contains_key(w));
                    }
                }
                r
            },
            None => {
                proof {
                    assert(self@ =~= old(self)@);
                }
                None
            },
        }
    }

    /// How many tasks wait for the worker.
    pub fn queue_size(&self, worker_id: &str) -> (r: usize)
        ensures
            r as int == self.pending(worker_id@).len(),
    {
        match queue_map_len_of(&self.queue, worker_id) {
            Some(n) => n,
            None => 0,
        }
    }
}

impl Default for TaskQueue {
    fn default() -> (r: TaskQueue)
        ensures
            r@.dom() == Set::<Seq<char>>::empty(),
    {
        TaskQueue::new()
    }
}

} // verus!
