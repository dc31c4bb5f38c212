//! Core of a task-orchestration platform: the worker registry, the per-worker
//! task queues, the scheduler's per-connection session protocol, the
//! first-available assignment policy, the gateway's task store and the
//! worker's progress plan.

pub mod concurrent_map;
pub mod error;
pub mod gateway;
pub mod ids;
pub mod laws;
pub mod scheduler;
pub mod store;
pub mod task;
pub mod task_queue;
pub mod worker;
pub mod worker_registry;
