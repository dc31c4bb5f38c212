use crate::error::GatewayError;
use crate::ids::now_epoch_seconds;
use crate::store::TaskStore;
use crate::task::{TaskProgress, TaskSpec};
use crate::worker::{service_health, ServiceHealth};
use vstd::prelude::*;
use vstd::string::StringExecFns;

verus! {

/// The answer to an accepted submission.
#[derive(Clone, Debug)]
pub struct TaskAccepted {
    pub task_id: String,
    pub timestamp: i64,
}

/// The client-facing side: accepts submissions and replays recorded progress.
pub struct GatewayService {
    pub store: TaskStore,
}

impl GatewayService {
    pub fn new(store: TaskStore) -> (r: GatewayService)
        ensures
            r.store@ == store@,
    {
        GatewayService { store }
    }

    /// Accepts a task with a non-empty name under a freshly drawn
    /// 36-character identity and records it with an empty history. An empty
    /// name is refused and records nothing. The drawn identity is handed to
    /// `accept_with_id`, which refuses it only when a task already holds it:
    /// a store with no 36-character identity always accepts.
    pub fn submit_task(&mut self, spec: TaskSpec) -> (r: Result<TaskAccepted, GatewayError>)
        ensures
            !spec.is_valid() <==> r matches Err(GatewayError::InvalidTaskSpec(_)),
            r matches Ok(a) ==> a.task_id@.len() == 36,
            spec.is_valid() && (forall|k: Seq<char>|
                #[trigger] old(self).store@.contains_key(k) ==> k.len() != 36) ==> r is Ok,
            match r {
                Ok(acc) => !old(self).store@.contains_key(acc.task_id@) && final(self).store@
                    == old(self).store@.insert(acc.task_id@, Seq::<TaskProgress>::empty()),
                Err(GatewayError::Internal(_)) => final(self).store@ == old(self).store@,
                Err(GatewayError::InvalidTaskSpec(_)) => final(self).store@ == old(self).store@,
                Err(_) => false,
            },
    {
        if spec.name.as_str().is_empty() {
            return Err(GatewayError::InvalidTaskSpec(String::from_str("Task name cannot be empty")));
        }
        let task_id = TaskStore::create_task_id();
        let now = now_epoch_seconds();
        self.accept_with_id(&spec, task_id, now)
    }

    /// Accepts a task under the given identity at time `now`: refused as an
    /// invalid spec when the name is empty, and as an internal error when a
    /// task already holds the identity; otherwise the task is recorded with
    /// an empty history.
    pub fn accept_with_id(&mut self, spec: &TaskSpec, task_id: String, now: i64) -> (r: Result<
        TaskAccepted,
        GatewayError,
    >)
        ensures
            r is Ok <==> (spec.is_valid() && !old(self).store@.contains_key(task_id@)),
            r matches Err(GatewayError::InvalidTaskSpec(_)) <==> !spec.is_valid(),
            r matches Err(GatewayError::Internal(_)) <==> (spec.is_valid() && old(
                self,
            ).store@.contains_key(task_id@)),
            r matches Ok(a) ==> a.task_id@ == task_id@ && a.timestamp == now && final(self).store@
                == old(self).store@.insert(task_id@, Seq::<TaskProgress>::empty()),
            r is Err ==> final(self).store@ == old(self).store@,
    {
        if spec.name.as_str().is_empty() {
            return Err(GatewayError::InvalidTaskSpec(String::from_str("Task name cannot be empty")));
        }
        if self.store.task_exists(task_id.as_str()) {
            return Err(GatewayError::Internal(String::from_str("Task identity already in use")));
        }
        self.store.initialize_task(task_id.clone());
        Ok(TaskAccepted { task_id, timestamp: now })
    }

    pub fn health_check(&self) -> (r: ServiceHealth)
        ensures
            r.healthy,
            r.version@ == "0.1.0"@,
    {
        service_health()
    }

    /// Records an event forwarded for a task, after those already recorded.
    pub fn record_progress(&mut self, progress: TaskProgress)
        ensures
            final(self).store@ == old(self).store@.insert(
                progress.task_id@,
                crate::store::history_in(old(self).store@, progress.task_id@).push(progress),
            ),
    {
        let task_id = progress.task_id.clone();
        self.store.add_progress(task_id, progress);
    }

    /// The events to replay to a new subscriber, in the order they were
    /// recorded. An empty identity is an invalid argument; an unknown one is
    /// not found.
    pub fn subscribe_progress(&self, task_id: &str) -> (r: Result<Vec<TaskProgress>, GatewayError>)
        ensures
            task_id@.len() == 0 ==> r matches Err(GatewayError::InvalidTaskSpec(_)),
            task_id@.len() > 0 && !self.store@.contains_key(task_id@) ==> r matches Err(
                GatewayError::TaskNotFound(_),
            ),
            task_id@.len() > 0 && self.store@.contains_key(task_id@) ==> (r matches Ok(v) && v@
                == self.store@[task_id@]),
            r matches Err(GatewayError::TaskNotFound(m)) ==> m@ == not_found_message(task_id@),
    {
        self.history_since(task_id, 0)
    }

    /// The events recorded for a task from position `cursor` on, in the
    /// order they were recorded: a subscriber that has already received
    /// `cursor` events calls this to receive the later ones. Errors as for
    /// `subscribe_progress`.
    pub fn history_since(&self, task_id: &str, cursor: usize) -> (r: Result<Vec<TaskProgress>, GatewayError>)
        ensures
            task_id@.len() == 0 ==> r matches Err(GatewayError::InvalidTaskSpec(_)),
            task_id@.len() > 0 && !self.store@.contains_key(task_id@) ==> r matches Err(
                GatewayError::TaskNotFound(_),
            ),
            task_id@.len() > 0 && self.store@.contains_key(task_id@) ==> (r matches Ok(v) && v@
                == suffix_from(self.store@[task_id@], cursor as int)),
            r matches Err(GatewayError::TaskNotFound(m)) ==> m@ == not_found_message(task_id@),
    {
        if task_id.is_empty() {
            return Err(GatewayError::InvalidTaskSpec(String::from_str("Task ID cannot be empty")));
        }
        match self.store.get_progress(task_id) {
            Some(events) => {
                let n = events.len();
                let mut out: Vec<TaskProgress> = Vec::new();
                let mut i: usize = cursor;
                if i > n {
                    i = n;
                }
                let ghost start = i as int;
                while i < n
                    invariant
                        n == events@.len(),
                        0 <= start <= i <= n,
                        start == (if cursor as int > n { n as int } else { cursor as int }),
                        out@ == events@.subrange(start, i as int),
                    decreases n - i,
                {
                    let e = events[i].duplicate();
                    out.push(e);
                    proof {
                        assert(out@ =~= events@.subrange(start, i + 1));
                    }
                    i = i + 1;
                }
                proof {
                    assert(out@ =~= suffix_from(events@, cursor as int));
                }
                Ok(out)
            },
            None => {
                let mut m = String::from_str("Task ");
                m.append(task_id);
                m.append(" not found");
                Err(GatewayError::TaskNotFound(m))
            },
        }
    }
}

/// The events of `h` from position `cursor` on; none past the end.
pub open spec fn suffix_from(h: Seq<TaskProgress>, cursor: int) -> Seq<TaskProgress> {
    if cursor >= h.len() {
        Seq::empty()
    } else {
        h.subrange(cursor, h.len() as int)
    }
}

/// The message of a lookup of an unknown task.
pub open spec fn not_found_message(task_id: Seq<char>) -> Seq<char> {
    "Task "@ + task_id + " not found"@
}

} // verus!
