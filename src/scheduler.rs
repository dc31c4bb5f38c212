use crate::error::SchedulerError;
use crate::ids::fresh_uuid;
use crate::task::{TaskProgress, TaskSpec};
use crate::task_queue::{dequeue_step, TaskQueue};
use crate::worker_registry::{updated_slots, Worker, WorkerRegistry};
use vstd::prelude::*;
use vstd::string::StringExecFns;

verus! {

/// One inbound frame on a worker's stream.
#[derive(Clone, Debug)]
pub enum WorkerFrame {
    Heartbeat { worker_address: String, available_slots: i32 },
    Progress(TaskProgress),
    Result(TaskProgress),
}

/// Where one worker connection stands.
#[derive(Clone, Debug)]
pub enum SessionState {
    /// No heartbeat has arrived yet; no identity is assigned.
    Unregistered,
    /// Registered under the identity it holds.
    Active(String),
    /// The stream has ended; nothing more is delivered on it.
    Terminated,
}

/// What the connection's driver is to do after a frame.
#[derive(Clone, Debug)]
pub enum SessionAction {
    /// The worker was registered under this fresh identity.
    Registered(String),
    /// The worker's slot count was refreshed.
    SlotsRefreshed,
    /// A progress event to forward towards the gateway.
    ForwardProgress(TaskProgress),
    /// A terminal result to forward towards the gateway.
    ForwardResult(TaskProgress),
    /// The frame has no effect in this state.
    Ignored,
}

/// Health of the scheduler.
#[derive(Clone, Debug)]
pub struct SchedulerHealth {
    pub healthy: bool,
    pub version: String,
    pub worker_count: usize,
}

/// The scheduler: the worker registry, the per-worker queues, and the
/// decisions of each worker session and of the assignment policy.
///
/// The policy trusts each worker's last reported slot count and does not
/// decrement it on dispatch: two dispatches between heartbeats may pick the
/// same worker. The next heartbeat is the only correction.
pub struct SchedulerService {
    pub workers: WorkerRegistry,
    pub task_queue: TaskQueue,
}

/// A reported slot count as the registry keeps it: floored at zero.
pub open spec fn kept_slots(reported: i32) -> i32 {
    if reported < 0 {
        0
    } else {
        reported
    }
}

impl SchedulerService {
    /// The registry is well formed and no worker has a negative slot count.
    pub open spec fn wf(&self) -> bool {
        &&& self.workers.wf()
        &&& forall|k: Seq<char>|
            #[trigger] self.workers@.contains_key(k) ==> self.workers@[k].available_slots >= 0
    }

    pub fn new() -> (r: SchedulerService)
        ensures
            r.wf(),
            r.workers@.dom() == Set::<Seq<char>>::empty(),
            r.task_queue@.dom() == Set::<Seq<char>>::empty(),
    {
        SchedulerService { workers: WorkerRegistry::new(), task_queue: TaskQueue::new() }
    }

    /// Applies one inbound frame to a session. The first heartbeat registers
    /// the worker under a fresh identity with the frame's address and slots;
    /// later heartbeats only refresh the slot count. A negative count is kept
    /// as zero. Progress and results of an active session are handed back to
    /// be forwarded. A fresh identity that is already registered is refused
    /// and the session stays unregistered.
    pub fn handle_frame(&mut self, session: &mut SessionState, frame: WorkerFrame) -> (r: Result<
        SessionAction,
        SchedulerError,
    >)
        requires
            old(self).wf(),
        ensures
            final(self).wf(),
            final(self).task_queue@ == old(self).task_queue@,
            r matches Ok(SessionAction::Registered(id)) ==> id@.len() == 36,
            (*old(session) is Unregistered && frame is Heartbeat && forall|k: Seq<char>|
                #[trigger] old(self).workers@.contains_key(k) ==> k.len() != 36) ==> r matches Ok(
                SessionAction::Registered(_),
            ),
            match (*old(session), frame) {
                (SessionState::Unregistered, WorkerFrame::Heartbeat { worker_address, available_slots }) =>
                    match r {
                    Ok(SessionAction::Registered(id)) => *final(session) == SessionState::Active(id)
                        && !old(self).workers@.contains_key(id@) && final(self).workers@ == old(self).workers@.insert(
                        id@,
                        Worker { id, address: worker_address, available_slots: kept_slots(available_slots) },
                    ),
                    Err(SchedulerError::RegistrationFailed(_)) => *final(session)
                        == SessionState::Unregistered && final(self).workers@ == old(self).workers@,
                    _ => false,
                },
                (SessionState::Active(id), WorkerFrame::Heartbeat { worker_address, available_slots }) =>
                    r == Ok::<SessionAction, SchedulerError>(SessionAction::SlotsRefreshed)
                    && *final(session) == SessionState::Active(id) && final(self).workers@
                    == updated_slots(old(self).workers@, id@, kept_slots(available_slots)),
                (SessionState::Active(id), WorkerFrame::Progress(p)) => r == Ok::<
                    SessionAction,
                    SchedulerError,
                >(SessionAction::ForwardProgress(p)) && *final(session) == SessionState::Active(id)
                    && final(self).workers@ == old(self).workers@,
                (SessionState::Active(id), WorkerFrame::Result(p)) => r == Ok::<
                    SessionAction,
                    SchedulerError,
                >(SessionAction::ForwardResult(p)) && *final(session) == SessionState::Active(id)
                    && final(self).workers@ == old(self).workers@,
                _ => r == Ok::<SessionAction, SchedulerError>(SessionAction::Ignored) && *final(session) == *old(session) && final(self).workers@ == old(self).workers@,
            },
    {
        match frame {
            WorkerFrame::Heartbeat { worker_address, available_slots } => {
                let slots = if available_slots < 0 {
                    0
                } else {
                    available_slots
                };
                match session {
                    SessionState::Unregistered => {
                        let id = fresh_uuid();
                        match self.register_with_id(worker_address, slots, id) {
                            Ok(id) => {
                                *session = SessionState::Active(id.clone());
                                Ok(SessionAction::Registered(id))
                            },
                            Err(e) => Err(e),
                        }
                    },
                    SessionState::Active(id) => {
                        self.workers.update_worker_slots(id.as_str(), slots);
                        Ok(SessionAction::SlotsRefreshed)
                    },
                    SessionState::Terminated => Ok(SessionAction::Ignored),
                }
            },
            WorkerFrame::Progress(p) => {
                match session {
                    SessionState::Active(_) => Ok(SessionAction::ForwardProgress(p)),
                    _ => Ok(SessionAction::Ignored),
                }
            },
            WorkerFrame::Result(p) => {
                match session {
                    SessionState::Active(_) => Ok(SessionAction::ForwardResult(p)),
                    _ => Ok(SessionAction::Ignored),
                }
            },
        }
    }

    /// Registers a worker under the given identity with its address and
    /// slot count, and hands the identity back; refused, with nothing
    /// changed, when a worker already holds the identity.
    pub fn register_with_id(&mut self, worker_address: String, available_slots: i32, id: String) -> (r:
        Result<String, SchedulerError>)
        requires
            old(self).wf(),
            available_slots >= 0,
        ensures
            final(self).wf(),
            final(self).task_queue@ == old(self).task_queue@,
            r is Ok <==> !old(self).workers@.contains_key(id@),
            r matches Err(e) ==> e is RegistrationFailed && final(self).workers@ == old(self).workers@,
            r matches Ok(w) ==> w == id && final(self).workers@ == old(self).workers@.insert(
                id@,
                Worker { id, address: worker_address, available_slots },
            ),
    {
        if self.workers.worker_exists(id.as_str()) {
            return Err(
                SchedulerError::RegistrationFailed(String::from_str("Worker identity already in use")),
            );
        }
        let worker = Worker { id: id.clone(), address: worker_address, available_slots };
        self.workers.register_worker(worker);
        Ok(id)
    }

    /// The next assignment to write on an active session's stream: the
    /// oldest task queued for its worker. A session that is not active gets
    /// nothing and the queues stay as they are.
    pub fn next_assignment(&mut self, session: &SessionState) -> (r: Option<TaskSpec>)
        requires
            old(self).wf(),
        ensures
            final(self).wf(),
            final(self).workers@ == old(self).workers@,
            match *session {
                SessionState::Active(id) => r == dequeue_step(old(self).task_queue.pending(id@)).0
                    && final(self).task_queue.pending(id@) == dequeue_step(
                    old(self).task_queue.pending(id@),
                ).1 && (forall|w: Seq<char>|
                    w != id@ ==> #[trigger] final(self).task_queue.pending(w) == old(self).task_queue.pending(w)),
                _ => r is None && final(self).task_queue@ == old(self).task_queue@,
            },
    {
        match session {
            SessionState::Active(id) => self.task_queue.dequeue(id.as_str()),
            _ => None,
        }
    }

    /// Ends a session: an active worker leaves the registry, and the session
    /// is terminated. Tasks still queued for it stay queued under its
    /// identity until reaped with `reap_orphans`.
    pub fn close_session(&mut self, session: &mut SessionState)
        requires
            old(self).wf(),
        ensures
            final(self).wf(),
            *final(session) == SessionState::Terminated,
            final(self).task_queue@ == old(self).task_queue@,
            match *old(session) {
                SessionState::Active(id) => final(self).workers@ == old(self).workers@.remove(id@),
                _ => final(self).workers@ == old(self).workers@,
            },
    {
        match session {
            SessionState::Active(id) => {
                self.workers.remove_worker(id.as_str());
            },
            _ => {},
        }
        *session = SessionState::Terminated;
    }

    /// Takes every task still queued for a worker, oldest first, so that the
    /// caller can dispatch them again; the worker's queue is left empty.
    pub fn reap_orphans(&mut self, worker_id: &str) -> (r: Vec<TaskSpec>)
        requires
            old(self).wf(),
        ensures
            final(self).wf(),
            final(self).workers@ == old(self).workers@,
            r@ == old(self).task_queue.pending(worker_id@),
            final(self).task_queue.pending(worker_id@).len() == 0,
            forall|w: Seq<char>|
                w != worker_id@ ==> #[trigger] final(self).task_queue.pending(w) == old(self).task_queue.pending(w),
    {
        let mut out: Vec<TaskSpec> = Vec::new();
        loop
            invariant
                self.wf(),
                self.workers@ == old(self).workers@,
                out@ + self.task_queue.pending(worker_id@) == old(self).task_queue.pending(worker_id@),
                forall|w: Seq<char>|
                    w != worker_id@ ==> #[trigger] self.task_queue.pending(w) == old(self).task_queue.pending(w),
            ensures
                out@ == old(self).task_queue.pending(worker_id@),
                self.task_queue.pending(worker_id@).len() == 0,
            decreases self.task_queue.pending(worker_id@).len(),
        {
            let ghost before = self.task_queue.pending(worker_id@);
            match self.task_queue.dequeue(worker_id) {
                Some(t) => {
                    out.push(t);
                    proof {
                        assert(before =~= seq![t] + self.task_queue.pending(worker_id@));
                        assert(out@ + self.task_queue.pending(worker_id@) =~= old(self).task_queue.pending(worker_id@));
                    }
                },
                None => {
                    proof {
                        assert(out@ =~= old(self).task_queue.pending(worker_id@));
                    }
                    break;
                },
            }
        }
        out
    }

    /// First-available assignment: queues the task on the first worker met
    /// with a free slot and names it; with no such worker, reports that
    /// capacity is exhausted and queues nothing.
    pub fn dispatch_task(&mut self, task: TaskSpec) -> (r: Result<String, SchedulerError>)
        requires
            old(self).wf(),
        ensures
            final(self).wf(),
            final(self).workers@ == old(self).workers@,
            match r {
                Ok(id) => old(self).workers@.contains_key(id@) && old(self).workers@[id@].available_slots
                    > 0 && final(self).task_queue@ == old(self).task_queue@.insert(
                    id@,
                    old(self).task_queue.pending(id@).push(task),
                ),
                Err(SchedulerError::NoAvailableWorkers) => final(self).task_queue@ == old(self).task_queue@ && forall|k: Seq<char>|
                    #[trigger] old(self).workers@.contains_key(k)
                        ==> old(self).workers@[k].available_slots <= 0,
                Err(_) => false,
            },
    {
        match self.workers.get_available_worker() {
            Some(worker) => {
                let id = worker.id;
                self.task_queue.enqueue(id.clone(), task);
                Ok(id)
            },
            None => Err(SchedulerError::NoAvailableWorkers),
        }
    }

    pub fn health_check(&self) -> (r: SchedulerHealth)
        ensures
            r.healthy,
            r.version@ == "0.1.0"@,
            r.worker_count as int == self.workers@.len(),
    {
        SchedulerHealth {
            healthy: true,
            version: String::from_str("0.1.0"),
            worker_count: self.workers.worker_count(),
        }
    }
}

impl Default for SchedulerService {
    fn default() -> (r: SchedulerService)
        ensures
            r.wf(),
            r.workers@.dom() == Set::<Seq<char>>::empty(),
            r.task_queue@.dom() == Set::<Seq<char>>::empty(),
    {
        SchedulerService::new()
    }
}

} // verus!
