use crate::task::{TaskProgress, TaskStatus};
use vstd::prelude::*;
use vstd::string::StringExecFns;

verus! {

/// Health of a service without further detail.
#[derive(Clone, Debug)]
pub struct ServiceHealth {
    pub healthy: bool,
    pub version: String,
}

/// The service version reported by health checks.
pub fn service_health() -> (r: ServiceHealth)
    ensures
        r.healthy,
        r.version@ == "0.1.0"@,
{
    ServiceHealth { healthy: true, version: String::from_str("0.1.0") }
}

pub open spec fn digit_char(d: nat) -> char {
    seq!['0', '1', '2', '3', '4', '5', '6', '7', '8', '9'][d as int]
}

/// The decimal digits of `n`, most significant first.
pub open spec fn decimal(n: nat) -> Seq<char>
    decreases n,
{
    if n < 10 {
        seq![digit_char(n)]
    } else {
        decimal(n / 10).push(digit_char(n % 10))
    }
}

/// Relies on the `Display` of i32 through `to_string`: a non-negative value
/// is written as its decimal digits, without sign or padding.
#[verifier::external_body]
fn decimal_text(n: i32) -> (r: String)
    requires
        n >= 0,
    ensures
        r@ == decimal(n as nat),
{
    n.to_string()
}

/// Number of running reports in a plan: at 0, 10, ..., 100 percent.
pub const RUNNING_STEPS: u32 = 11;

/// The message of the running report at `percent`.
pub open spec fn progress_message(percent: nat) -> Seq<char> {
    "Task progress: "@ + decimal(percent) + "%"@
}

/// What the `k`-th report of a plan says: eleven running
/// reports at 0, 10, ..., 100 percent, then one completed report, then none.
pub open spec fn planned_event(k: nat) -> Option<(TaskStatus, i32, Seq<char>)> {
    if k < RUNNING_STEPS {
        Some((TaskStatus::Running, (10 * k) as i32, progress_message(10 * k)))
    } else if k == RUNNING_STEPS {
        Some((TaskStatus::Completed, 100i32, "Task completed"@))
    } else {
        None
    }
}

/// The worker service. Running a task is simulated by a fixed plan of
/// progress reports.
pub struct WorkerService;

/// The reports still to send for one task.
pub struct ExecutionPlan {
    pub task_id: String,
    pub emitted: u32,
}

impl WorkerService {
    pub fn new() -> (r: WorkerService)
        ensures
            r == WorkerService,
    {
        WorkerService
    }

    pub fn health_check(&self) -> (r: ServiceHealth)
        ensures
            r.healthy,
            r.version@ == "0.1.0"@,
    {
        service_health()
    }

    /// Starts the plan of reports for a task; none has been sent yet.
    pub fn execute_task(&self, task_id: String) -> (r: ExecutionPlan)
        ensures
            r.task_id == task_id,
            r.emitted == 0,
    {
        ExecutionPlan { task_id, emitted: 0 }
    }
}

impl Default for WorkerService {
    fn default() -> (r: WorkerService)
        ensures
            r == WorkerService,
    {
        WorkerService::new()
    }
}

impl ExecutionPlan {
    /// The plan's next report, stamped with `now`, or `None` once the
    /// completed report has been sent.
    pub fn next_event(&mut self, now: i64) -> (r: Option<TaskProgress>)
        requires
            old(self).emitted <= RUNNING_STEPS + 1,
        ensures
            final(self).task_id == old(self).task_id,
            final(self).emitted <= RUNNING_STEPS + 1,
            match planned_event(old(self).emitted as nat) {
                Some(e) => final(self).emitted == old(self).emitted + 1 && (r matches Some(p) && p.task_id
                    == old(self).task_id && p.status == e.0 && p.progress_percent == e.1 && p.message@
                    == e.2 && p.timestamp == now),
                None => r is None && final(self).emitted == old(self).emitted,
            },
    {
        if self.emitted < RUNNING_STEPS {
            let percent: i32 = (10 * self.emitted) as i32;
            let mut message = String::from_str("Task progress: ");
            let digits = decimal_text(percent);
            message.append(digits.as_str());
            message.append("%");
            self.emitted = self.emitted + 1;
            Some(
                TaskProgress {
                    task_id: self.task_id.clone(),
                    status: TaskStatus::Running,
                    progress_percent: percent,
                    message,
                    timestamp: now,
                },
            )
        } else if self.emitted == RUNNING_STEPS {
            self.emitted = self.emitted + 1;
            Some(
                TaskProgress {
                    task_id: self.task_id.clone(),
                    status: TaskStatus::Completed,
                    progress_percent: 100,
                    message: String::from_str("Task completed"),
                    timestamp: now,
                },
            )
        } else {
            None
        }
    }

    /// Whether every report of the plan has been sent.
    pub fn is_done(&self) -> (r: bool)
        ensures
            r == (self.emitted > RUNNING_STEPS),
    {
        self.emitted > RUNNING_STEPS
    }
}

} // verus!
