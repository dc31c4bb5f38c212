use vstd::prelude::*;

verus! {

/// What a client submits: a task name and an opaque payload.
#[derive(Clone, Debug)]
pub struct TaskSpec {
    pub name: String,
    pub payload: Vec<u8>,
}

impl TaskSpec {
    /// A spec is well formed when its name is not empty.
    pub open spec fn is_valid(&self) -> bool {
        self.name@.len() > 0
    }
}

/// Lifecycle status of a task as carried by progress events.
#[derive(Clone, Copy, Debug, PartialEq, Eq, Structural)]
pub enum TaskStatus {
    Unspecified,
    Pending,
    Running,
    Completed,
    Failed,
    Cancelled,
}

pub open spec fn status_code_of(s: TaskStatus) -> i32 {
    match s {
        TaskStatus::Unspecified => 0,
        TaskStatus::Pending => 1,
        TaskStatus::Running => 2,
        TaskStatus::Completed => 3,
        TaskStatus::Failed => 4,
        TaskStatus::Cancelled => 5,
    }
}

pub open spec fn status_of_code(c: i32) -> Option<TaskStatus> {
    if c == 0 {
        Some(TaskStatus::Unspecified)
    } else if c == 1 {
        Some(TaskStatus::Pending)
    } else if c == 2 {
        Some(TaskStatus::Running)
    } else if c == 3 {
        Some(TaskStatus::Completed)
    } else if c == 4 {
        Some(TaskStatus::Failed)
    } else if c == 5 {
        Some(TaskStatus::Cancelled)
    } else {
        None
    }
}

impl TaskStatus {
    /// The status's number on the wire.
    pub fn code(&self) -> (r: i32)
        ensures
            r == status_code_of(*self),
    {
        match self {
            TaskStatus::Unspecified => 0,
            TaskStatus::Pending => 1,
            TaskStatus::Running => 2,
            TaskStatus::Completed => 3,
            TaskStatus::Failed => 4,
            TaskStatus::Cancelled => 5,
        }
    }

    /// The status with the given wire number, if there is one.
    pub fn from_code(c: i32) -> (r: Option<TaskStatus>)
        ensures
            r == status_of_code(c),
    {
        if c == 0 {
            Some(TaskStatus::Unspecified)
        } else if c == 1 {
            Some(TaskStatus::Pending)
        } else if c == 2 {
            Some(TaskStatus::Running)
        } else if c == 3 {
            Some(TaskStatus::Completed)
        } else if c == 4 {
            Some(TaskStatus::Failed)
        } else if c == 5 {
            Some(TaskStatus::Cancelled)
        } else {
            None
        }
    }

    /// Completed, failed and cancelled end a task.
    pub fn is_terminal(&self) -> (r: bool)
        ensures
            r == (*self == TaskStatus::Completed || *self == TaskStatus::Failed || *self
                == TaskStatus::Cancelled),
    {
        match self {
            TaskStatus::Completed | TaskStatus::Failed | TaskStatus::Cancelled => true,
            _ => false,
        }
    }
}

/// One progress report of a task.
#[derive(Clone, Debug)]
pub struct TaskProgress {
    pub task_id: String,
    pub status: TaskStatus,
    pub progress_percent: i32,
    pub message: String,
    pub timestamp: i64,
}

impl TaskProgress {
    /// A field-by-field copy.
    pub fn duplicate(&self) -> (r: TaskProgress)
        ensures
            r == *self,
    {
        TaskProgress {
            task_id: self.task_id.clone(),
            status: self.status,
            progress_percent: self.progress_percent,
            message: self.message.clone(),
            timestamp: self.timestamp,
        }
    }
}

} // verus!
