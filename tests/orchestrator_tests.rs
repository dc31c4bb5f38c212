use orchestrator::error::{GatewayError, SchedulerError, StatusKind, WorkerError};
use orchestrator::gateway::GatewayService;
use orchestrator::scheduler::{SchedulerService, SessionAction, SessionState, WorkerFrame};
use orchestrator::store::TaskStore;
use orchestrator::task::{TaskProgress, TaskSpec, TaskStatus};
use orchestrator::task_queue::TaskQueue;
use orchestrator::worker::{ExecutionPlan, WorkerService};
use orchestrator::worker_registry::{Worker, WorkerRegistry};

fn spec(name: &str) -> TaskSpec {
    TaskSpec { name: name.to_string(), payload: vec![1, 2, 3] }
}

fn worker(id: &str, slots: i32) -> Worker {
    Worker { id: id.to_string(), address: format!("{}:7000", id), available_slots: slots }
}

fn heartbeat(addr: &str, slots: i32) -> WorkerFrame {
    WorkerFrame::Heartbeat { worker_address: addr.to_string(), available_slots: slots }
}

fn event(task_id: &str, percent: i32) -> TaskProgress {
    TaskProgress {
        task_id: task_id.to_string(),
        status: TaskStatus::Running,
        progress_percent: percent,
        message: format!("at {}", percent),
        timestamp: 1_700_000_000,
    }
}

#[test]
fn registry_register_and_get() {
    let mut reg = WorkerRegistry::new();
    assert!(reg.get_worker("w1").is_none());
    reg.register_worker(worker("w1", 2));
    let w = reg.get_worker("w1").unwrap();
    assert_eq!(w.id, "w1");
    assert_eq!(w.address, "w1:7000");
    assert_eq!(w.available_slots, 2);
    assert!(reg.worker_exists("w1"));
    assert_eq!(reg.worker_count(), 1);
}

#[test]
fn registry_register_replaces_same_identity() {
    let mut reg = WorkerRegistry::new();
    reg.register_worker(worker("w1", 2));
    reg.register_worker(Worker { id: "w1".to_string(), address: "other".to_string(), available_slots: 5 });
    assert_eq!(reg.worker_count(), 1);
    let w = reg.get_worker("w1").unwrap();
    assert_eq!(w.address, "other");
    assert_eq!(w.available_slots, 5);
}

#[test]
fn registry_update_slots_overwrites() {
    let mut reg = WorkerRegistry::new();
    reg.register_worker(worker("w1", 2));
    reg.update_worker_slots("w1", 7);
    assert_eq!(reg.get_worker("w1").unwrap().available_slots, 7);
    reg.update_worker_slots("w1", 0);
    assert_eq!(reg.get_worker("w1").unwrap().available_slots, 0);
}

#[test]
fn registry_update_unknown_is_noop() {
    let mut reg = WorkerRegistry::new();
    reg.register_worker(worker("w1", 2));
    reg.update_worker_slots("ghost", 4);
    assert!(reg.get_worker("ghost").is_none());
    assert!(!reg.worker_exists("ghost"));
    assert_eq!(reg.worker_count(), 1);
    assert_eq!(reg.get_worker("w1").unwrap().available_slots, 2);
}

#[test]
fn registry_pick_available_skips_full_workers() {
    let mut reg = WorkerRegistry::new();
    assert!(reg.get_available_worker().is_none());
    reg.register_worker(worker("a", 0));
    reg.register_worker(worker("b", -3));
    assert!(reg.get_available_worker().is_none());
    reg.register_worker(worker("c", 1));
    let w = reg.get_available_worker().unwrap();
    assert_eq!(w.id, "c");
    assert!(w.available_slots > 0);
    reg.update_worker_slots("c", 0);
    assert!(reg.get_available_worker().is_none());
}

#[test]
fn registry_list_and_remove() {
    let mut reg = WorkerRegistry::new();
    reg.register_worker(worker("a", 1));
    reg.register_worker(worker("b", 2));
    let mut ids: Vec<String> = reg.list_workers().into_iter().map(|w| w.id).collect();
    ids.sort();
    assert_eq!(ids, vec!["a".to_string(), "b".to_string()]);
    reg.remove_worker("a");
    reg.remove_worker("a");
    assert!(reg.get_worker("a").is_none());
    assert_eq!(reg.list_workers().len(), 1);
    assert_eq!(reg.worker_count(), 1);
}

#[test]
fn queue_fifo_order_with_interleaving() {
    let mut q = TaskQueue::new();
    q.enqueue("w".to_string(), spec("t1"));
    q.enqueue("w".to_string(), spec("t2"));
    assert_eq!(q.dequeue("w").unwrap().name, "t1");
    q.enqueue("w".to_string(), spec("t3"));
    assert_eq!(q.dequeue("w").unwrap().name, "t2");
    assert_eq!(q.dequeue("w").unwrap().name, "t3");
    assert!(q.dequeue("w").is_none());
}

#[test]
fn queue_dequeue_empty_and_unknown() {
    let mut q = TaskQueue::new();
    assert!(q.dequeue("nobody").is_none());
    assert_eq!(q.queue_size("nobody"), 0);
    q.enqueue("w".to_string(), spec("t1"));
    q.dequeue("w");
    assert!(q.dequeue("w").is_none());
    assert_eq!(q.queue_size("w"), 0);
}

#[test]
fn queue_workers_are_independent() {
    let mut q = TaskQueue::new();
    q.enqueue("a".to_string(), spec("a1"));
    q.enqueue("b".to_string(), spec("b1"));
    q.enqueue("a".to_string(), spec("a2"));
    assert_eq!(q.queue_size("a"), 2);
    assert_eq!(q.queue_size("b"), 1);
    assert_eq!(q.dequeue("b").unwrap().name, "b1");
    assert_eq!(q.queue_size("a"), 2);
    let t = q.dequeue("a").unwrap();
    assert_eq!(t.name, "a1");
    assert_eq!(t.payload, vec![1, 2, 3]);
}

#[test]
fn store_progress_history() {
    let mut store = TaskStore::new();
    assert!(!store.task_exists("t"));
    assert!(store.get_progress("t").is_none());
    store.initialize_task("t".to_string());
    assert!(store.task_exists("t"));
    assert_eq!(store.get_progress("t").unwrap().len(), 0);
    store.add_progress("t".to_string(), event("t", 10));
    store.add_progress("t".to_string(), event("t", 20));
    let got: Vec<i32> = store.get_progress("t").unwrap().iter().map(|p| p.progress_percent).collect();
    assert_eq!(got, vec![10, 20]);
    store.add_progress("u".to_string(), event("u", 5));
    assert!(store.task_exists("u"));
}

#[test]
fn create_task_id_is_uuid_shaped() {
    let a = TaskStore::create_task_id();
    let b = TaskStore::create_task_id();
    assert_eq!(a.len(), 36);
    assert_eq!(a.matches('-').count(), 4);
    assert_ne!(a, b);
}

#[test]
fn submit_returns_unique_identities() {
    let mut gw = GatewayService::new(TaskStore::new());
    let mut seen: Vec<String> = Vec::new();
    for i in 0..50 {
        let acc = gw.submit_task(spec(&format!("job{}", i))).unwrap();
        assert!(!seen.contains(&acc.task_id));
        assert!(gw.store.task_exists(&acc.task_id));
        seen.push(acc.task_id);
    }
}

#[test]
fn submit_empty_name_is_invalid_argument() {
    let mut gw = GatewayService::new(TaskStore::new());
    let err = gw.submit_task(spec("")).unwrap_err();
    assert!(matches!(err, GatewayError::InvalidTaskSpec(_)));
    assert_eq!(err.status_kind(), StatusKind::InvalidArgument);
    assert_eq!(err.status_message(), "Task name cannot be empty");
}

#[test]
fn subscribe_unknown_and_empty_ids() {
    let gw = GatewayService::new(TaskStore::new());
    let err = gw.subscribe_progress("missing").unwrap_err();
    assert!(matches!(err, GatewayError::TaskNotFound(ref m) if m == "Task missing not found"));
    assert_eq!(err.status_kind(), StatusKind::NotFound);
    let err = gw.subscribe_progress("").unwrap_err();
    assert_eq!(err.status_kind(), StatusKind::InvalidArgument);
}

#[test]
fn subscribe_replays_in_order() {
    let mut gw = GatewayService::new(TaskStore::new());
    let id = gw.submit_task(spec("build")).unwrap().task_id;
    assert_eq!(gw.subscribe_progress(&id).unwrap().len(), 0);
    for p in [0, 30, 60] {
        gw.record_progress(event(&id, p));
    }
    let replay: Vec<i32> = gw.subscribe_progress(&id).unwrap().iter().map(|p| p.progress_percent).collect();
    assert_eq!(replay, vec![0, 30, 60]);
}

#[test]
fn session_registers_on_first_heartbeat_only() {
    let mut sched = SchedulerService::new();
    let mut session = SessionState::Unregistered;
    let id = match sched.handle_frame(&mut session, heartbeat("10.0.0.1:9000", 2)).unwrap() {
        SessionAction::Registered(id) => id,
        other => panic!("unexpected {:?}", other),
    };
    assert_eq!(id.len(), 36);
    let w = sched.workers.get_worker(&id).unwrap();
    assert_eq!(w.address, "10.0.0.1:9000");
    assert_eq!(w.available_slots, 2);
    let again = sched.handle_frame(&mut session, heartbeat("elsewhere", 5)).unwrap();
    assert!(matches!(again, SessionAction::SlotsRefreshed));
    assert_eq!(sched.workers.worker_count(), 1);
    let w = sched.workers.get_worker(&id).unwrap();
    assert_eq!(w.available_slots, 5);
    assert_eq!(w.address, "10.0.0.1:9000");
}

#[test]
fn session_ignores_frames_before_registration() {
    let mut sched = SchedulerService::new();
    let mut session = SessionState::Unregistered;
    let r = sched.handle_frame(&mut session, WorkerFrame::Progress(event("t", 10))).unwrap();
    assert!(matches!(r, SessionAction::Ignored));
    assert!(matches!(session, SessionState::Unregistered));
    assert_eq!(sched.workers.worker_count(), 0);
}

#[test]
fn session_forwards_progress_and_results() {
    let mut sched = SchedulerService::new();
    let mut session = SessionState::Unregistered;
    sched.handle_frame(&mut session, heartbeat("a", 1)).unwrap();
    match sched.handle_frame(&mut session, WorkerFrame::Progress(event("t", 40))).unwrap() {
        SessionAction::ForwardProgress(p) => assert_eq!(p.progress_percent, 40),
        other => panic!("unexpected {:?}", other),
    }
    match sched.handle_frame(&mut session, WorkerFrame::Result(event("t", 100))).unwrap() {
        SessionAction::ForwardResult(p) => assert_eq!(p.progress_percent, 100),
        other => panic!("unexpected {:?}", other),
    }
}

#[test]
fn closed_session_is_removed_and_gets_nothing() {
    let mut sched = SchedulerService::new();
    let mut session = SessionState::Unregistered;
    sched.handle_frame(&mut session, heartbeat("a", 3)).unwrap();
    let id = match &session {
        SessionState::Active(id) => id.clone(),
        _ => panic!("not active"),
    };
    sched.dispatch_task(spec("t1")).unwrap();
    sched.dispatch_task(spec("t2")).unwrap();
    assert_eq!(sched.task_queue.queue_size(&id), 2);
    sched.close_session(&mut session);
    assert!(matches!(session, SessionState::Terminated));
    assert!(sched.workers.get_worker(&id).is_none());
    assert!(sched.next_assignment(&session).is_none());
    assert_eq!(sched.task_queue.queue_size(&id), 2);
    let later = sched.handle_frame(&mut session, heartbeat("a", 3)).unwrap();
    assert!(matches!(later, SessionAction::Ignored));
    assert_eq!(sched.workers.worker_count(), 0);
    let orphans: Vec<String> = sched.reap_orphans(&id).into_iter().map(|t| t.name).collect();
    assert_eq!(orphans, vec!["t1".to_string(), "t2".to_string()]);
    assert_eq!(sched.task_queue.queue_size(&id), 0);
}

#[test]
fn dispatch_without_workers_is_resource_exhausted() {
    let mut sched = SchedulerService::new();
    let err = sched.dispatch_task(spec("t")).unwrap_err();
    assert!(matches!(err, SchedulerError::NoAvailableWorkers));
    assert_eq!(err.status_kind(), StatusKind::ResourceExhausted);
    assert_eq!(err.status_message(), "No available workers");
}

#[test]
fn dispatch_skips_worker_without_slots() {
    let mut sched = SchedulerService::new();
    let mut session = SessionState::Unregistered;
    sched.handle_frame(&mut session, heartbeat("a", 0)).unwrap();
    assert!(sched.dispatch_task(spec("t")).is_err());
    sched.handle_frame(&mut session, heartbeat("a", 1)).unwrap();
    assert!(sched.dispatch_task(spec("t")).is_ok());
}

#[test]
fn end_to_end_build_task() {
    let mut gw = GatewayService::new(TaskStore::new());
    let task_id = gw.submit_task(spec("build")).unwrap().task_id;

    let mut sched = SchedulerService::new();
    let mut session = SessionState::Unregistered;
    let worker_id = match sched.handle_frame(&mut session, heartbeat("w:1", 2)).unwrap() {
        SessionAction::Registered(id) => id,
        other => panic!("unexpected {:?}", other),
    };
    assert!(sched.workers.get_worker(&worker_id).is_some());

    let target = sched.dispatch_task(spec("build")).unwrap();
    assert_eq!(target, worker_id);
    assert_eq!(sched.task_queue.queue_size(&worker_id), 1);
    let assigned = sched.next_assignment(&session).unwrap();
    assert_eq!(assigned.name, "build");
    assert_eq!(sched.task_queue.queue_size(&worker_id), 0);

    let runner = WorkerService::new();
    let mut plan = runner.execute_task(task_id.clone());
    let mut now = 1_700_000_000i64;
    while let Some(p) = plan.next_event(now) {
        now += 1;
        let frame = if p.status.is_terminal() { WorkerFrame::Result(p) } else { WorkerFrame::Progress(p) };
        match sched.handle_frame(&mut session, frame).unwrap() {
            SessionAction::ForwardProgress(p) | SessionAction::ForwardResult(p) => gw.record_progress(p),
            other => panic!("unexpected {:?}", other),
        }
    }
    let seen = gw.subscribe_progress(&task_id).unwrap();
    let percents: Vec<i32> = seen.iter().map(|p| p.progress_percent).collect();
    assert_eq!(percents, vec![0, 10, 20, 30, 40, 50, 60, 70, 80, 90, 100, 100]);
    assert!(seen[..11].iter().all(|p| p.status == TaskStatus::Running));
    assert_eq!(seen[11].status, TaskStatus::Completed);
    assert!(seen.windows(2).all(|w| w[0].timestamp < w[1].timestamp));
}

#[test]
fn end_to_end_retry_after_worker_joins() {
    let mut sched = SchedulerService::new();
    let pending = spec("deploy");
    let err = sched.dispatch_task(pending.clone()).unwrap_err();
    assert_eq!(err.status_kind(), StatusKind::ResourceExhausted);
    let mut session = SessionState::Unregistered;
    sched.handle_frame(&mut session, heartbeat("w:2", 1)).unwrap();
    let id = sched.dispatch_task(pending).unwrap();
    assert_eq!(sched.task_queue.queue_size(&id), 1);
    assert_eq!(sched.next_assignment(&session).unwrap().name, "deploy");
}

#[test]
fn scheduler_health_counts_workers() {
    let mut sched = SchedulerService::new();
    let h = sched.health_check();
    assert!(h.healthy);
    assert_eq!(h.version, "0.1.0");
    assert_eq!(h.worker_count, 0);
    let mut s1 = SessionState::Unregistered;
    let mut s2 = SessionState::Unregistered;
    sched.handle_frame(&mut s1, heartbeat("a", 1)).unwrap();
    sched.handle_frame(&mut s2, heartbeat("b", 1)).unwrap();
    assert_eq!(sched.health_check().worker_count, 2);
}

#[test]
fn worker_plan_messages_and_completion() {
    let runner = WorkerService::new();
    let h = runner.health_check();
    assert!(h.healthy);
    assert_eq!(h.version, "0.1.0");
    let mut plan: ExecutionPlan = runner.execute_task("t9".to_string());
    let first = plan.next_event(5).unwrap();
    assert_eq!(first.task_id, "t9");
    assert_eq!(first.message, "Task progress: 0%");
    assert_eq!(first.timestamp, 5);
    let second = plan.next_event(6).unwrap();
    assert_eq!(second.message, "Task progress: 10%");
    for _ in 0..9 {
        plan.next_event(7).unwrap();
    }
    assert!(!plan.is_done());
    let last = plan.next_event(8).unwrap();
    assert_eq!(last.status, TaskStatus::Completed);
    assert_eq!(last.message, "Task completed");
    assert_eq!(last.progress_percent, 100);
    assert!(plan.is_done());
    assert!(plan.next_event(9).is_none());
}

#[test]
fn worker_plan_hundred_percent_message() {
    let mut plan = WorkerService::new().execute_task(String::new());
    let mut last_running = None;
    while let Some(p) = plan.next_event(0) {
        if p.status == TaskStatus::Running {
            last_running = Some(p.message);
        }
    }
    assert_eq!(last_running.unwrap(), "Task progress: 100%");
}

#[test]
fn status_codes_round_trip() {
    let all = [
        TaskStatus::Unspecified,
        TaskStatus::Pending,
        TaskStatus::Running,
        TaskStatus::Completed,
        TaskStatus::Failed,
        TaskStatus::Cancelled,
    ];
    for (i, s) in all.iter().enumerate() {
        assert_eq!(s.code(), i as i32);
        assert_eq!(TaskStatus::from_code(i as i32), Some(*s));
    }
    assert_eq!(TaskStatus::from_code(6), None);
    assert_eq!(TaskStatus::from_code(-1), None);
    assert!(TaskStatus::Failed.is_terminal());
    assert!(TaskStatus::Cancelled.is_terminal());
    assert!(!TaskStatus::Pending.is_terminal());
}

#[test]
fn error_status_kinds() {
    assert_eq!(GatewayError::Internal("x".to_string()).status_kind(), StatusKind::Internal);
    assert_eq!(GatewayError::SchedulerUnavailable.status_kind(), StatusKind::Unavailable);
    assert_eq!(GatewayError::SchedulerUnavailable.status_message(), "Scheduler service is unavailable");
    assert_eq!(SchedulerError::RegistrationFailed("r".to_string()).status_kind(), StatusKind::InvalidArgument);
    assert_eq!(SchedulerError::Internal("i".to_string()).status_message(), "i");
    assert_eq!(WorkerError::ExecutionFailed("e".to_string()).status_kind(), StatusKind::Internal);
    assert_eq!(WorkerError::TaskCancelled.status_kind(), StatusKind::Cancelled);
    assert_eq!(WorkerError::TaskCancelled.status_message(), "Task was cancelled");
    assert_eq!(WorkerError::Internal("n".to_string()).status_kind(), StatusKind::Internal);
    assert_eq!(WorkerError::SchedulerConnectionFailed("down".to_string()).status_kind(), StatusKind::Unavailable);
}

#[test]
fn negative_slot_report_is_kept_as_zero() {
    let mut sched = SchedulerService::new();
    let mut session = SessionState::Unregistered;
    let id = match sched.handle_frame(&mut session, heartbeat("a", -4)).unwrap() {
        SessionAction::Registered(id) => id,
        other => panic!("unexpected {:?}", other),
    };
    assert_eq!(sched.workers.get_worker(&id).unwrap().available_slots, 0);
    sched.handle_frame(&mut session, heartbeat("a", 3)).unwrap();
    assert_eq!(sched.workers.get_worker(&id).unwrap().available_slots, 3);
    sched.handle_frame(&mut session, heartbeat("a", -1)).unwrap();
    assert_eq!(sched.workers.get_worker(&id).unwrap().available_slots, 0);
    assert!(sched.dispatch_task(spec("t")).is_err());
}

#[test]
fn queue_fifo_against_model_over_interleavings() {
    let mut q = TaskQueue::new();
    let mut model: std::collections::VecDeque<String> = std::collections::VecDeque::new();
    let mut seed: u32 = 12345;
    let mut next_name = 0;
    for _ in 0..500 {
        seed = seed.wrapping_mul(1103515245).wrapping_add(12345);
        if (seed >> 16) % 3 != 0 {
            let name = format!("t{}", next_name);
            next_name += 1;
            q.enqueue("w".to_string(), spec(&name));
            model.push_back(name);
        } else {
            let got = q.dequeue("w").map(|t| t.name);
            assert_eq!(got, model.pop_front());
        }
        assert_eq!(q.queue_size("w"), model.len());
    }
    while let Some(expected) = model.pop_front() {
        assert_eq!(q.dequeue("w").unwrap().name, expected);
    }
    assert!(q.dequeue("w").is_none());
}

#[test]
fn accept_with_id_decides_on_the_given_identity() {
    let mut gw = GatewayService::new(TaskStore::new());
    let acc = gw.accept_with_id(&spec("build"), "id-1".to_string(), 42).unwrap();
    assert_eq!(acc.task_id, "id-1");
    assert_eq!(acc.timestamp, 42);
    assert_eq!(gw.subscribe_progress("id-1").unwrap().len(), 0);
    let err = gw.accept_with_id(&spec("again"), "id-1".to_string(), 43).unwrap_err();
    assert!(matches!(err, GatewayError::Internal(_)));
    assert_eq!(err.status_kind(), StatusKind::Internal);
    let err = gw.accept_with_id(&spec(""), "id-2".to_string(), 44).unwrap_err();
    assert!(matches!(err, GatewayError::InvalidTaskSpec(_)));
    assert!(!gw.store.task_exists("id-2"));
}

#[test]
fn submitted_task_is_subscribable_with_empty_history() {
    let mut gw = GatewayService::new(TaskStore::new());
    let acc = gw.submit_task(spec("build")).unwrap();
    assert_eq!(acc.task_id.len(), 36);
    assert!(gw.store.task_exists(&acc.task_id));
    assert_eq!(gw.subscribe_progress(&acc.task_id).unwrap().len(), 0);
}

#[test]
fn history_since_continues_after_replay() {
    let mut gw = GatewayService::new(TaskStore::new());
    let id = gw.submit_task(spec("build")).unwrap().task_id;
    gw.record_progress(event(&id, 0));
    gw.record_progress(event(&id, 10));
    let replay = gw.subscribe_progress(&id).unwrap();
    assert_eq!(replay.len(), 2);
    gw.record_progress(event(&id, 20));
    gw.record_progress(event(&id, 30));
    let later: Vec<i32> = gw.history_since(&id, replay.len()).unwrap().iter().map(|p| p.progress_percent).collect();
    assert_eq!(later, vec![20, 30]);
    assert_eq!(gw.history_since(&id, 4).unwrap().len(), 0);
    assert_eq!(gw.history_since(&id, 99).unwrap().len(), 0);
    assert!(gw.history_since("", 0).is_err());
    assert!(matches!(gw.history_since("nope", 0), Err(GatewayError::TaskNotFound(_))));
}

#[test]
fn register_with_id_refuses_a_taken_identity() {
    let mut sched = SchedulerService::new();
    let id = sched.register_with_id("a:1".to_string(), 2, "w-1".to_string()).unwrap();
    assert_eq!(id, "w-1");
    assert_eq!(sched.workers.get_worker("w-1").unwrap().available_slots, 2);
    let err = sched.register_with_id("b:1".to_string(), 5, "w-1".to_string()).unwrap_err();
    assert!(matches!(err, SchedulerError::RegistrationFailed(_)));
    assert_eq!(err.status_kind(), StatusKind::InvalidArgument);
    assert_eq!(sched.workers.get_worker("w-1").unwrap().address, "a:1");
}

#[test]
fn gateway_health() {
    let gw = GatewayService::new(TaskStore::default());
    let h = gw.health_check();
    assert!(h.healthy);
    assert_eq!(h.version, "0.1.0");
}
