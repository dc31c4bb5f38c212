use vstd::prelude::*;
use vstd::string::StringExecFns;

verus! {

/// The stable kind under which a failure crosses an RPC boundary.
#[derive(Clone, Copy, Debug, PartialEq, Eq, Structural)]
pub enum StatusKind {
    NotFound,
    InvalidArgument,
    Unavailable,
    ResourceExhausted,
    Internal,
    Cancelled,
}

/// Failures of the client-facing gateway.
#[derive(Clone, Debug)]
pub enum GatewayError {
    TaskNotFound(String),
    InvalidTaskSpec(String),
    Internal(String),
    SchedulerUnavailable,
}

impl GatewayError {
    pub fn status_kind(&self) -> (r: StatusKind)
        ensures
            r == match self {
                GatewayError::TaskNotFound(_) => StatusKind::NotFound,
                GatewayError::InvalidTaskSpec(_) => StatusKind::InvalidArgument,
                GatewayError::Internal(_) => StatusKind::Internal,
                GatewayError::SchedulerUnavailable => StatusKind::Unavailable,
            },
    {
        match self {
            GatewayError::TaskNotFound(_) => StatusKind::NotFound,
            GatewayError::InvalidTaskSpec(_) => StatusKind::InvalidArgument,
            GatewayError::Internal(_) => StatusKind::Internal,
            GatewayError::SchedulerUnavailable => StatusKind::Unavailable,
        }
    }

    /// The text carried with the status.
    pub fn status_message(&self) -> (r: String)
        ensures
            match self {
                GatewayError::TaskNotFound(m) => r@ == m@,
                GatewayError::InvalidTaskSpec(m) => r@ == m@,
                GatewayError::Internal(m) => r@ == m@,
                GatewayError::SchedulerUnavailable => r@ == "Scheduler service is unavailable"@,
            },
    {
        match self {
            GatewayError::TaskNotFound(m) => m.clone(),
            GatewayError::InvalidTaskSpec(m) => m.clone(),
            GatewayError::Internal(m) => m.clone(),
            GatewayError::SchedulerUnavailable => String::from_str("Scheduler service is unavailable"),
        }
    }
}

/// Failures of the scheduler.
#[derive(Clone, Debug)]
pub enum SchedulerError {
    RegistrationFailed(String),
    NoAvailableWorkers,
    Internal(String),
}

impl SchedulerError {
    pub fn status_kind(&self) -> (r: StatusKind)
        ensures
            r == match self {
                SchedulerError::RegistrationFailed(_) => StatusKind::InvalidArgument,
                SchedulerError::NoAvailableWorkers => StatusKind::ResourceExhausted,
                SchedulerError::Internal(_) => StatusKind::Internal,
            },
    {
        match self {
            SchedulerError::RegistrationFailed(_) => StatusKind::InvalidArgument,
            SchedulerError::NoAvailableWorkers => StatusKind::ResourceExhausted,
            SchedulerError::Internal(_) => StatusKind::Internal,
        }
    }

    /// The text carried with the status.
    pub fn status_message(&self) -> (r: String)
        ensures
            match self {
                SchedulerError::RegistrationFailed(m) => r@ == m@,
                SchedulerError::NoAvailableWorkers => r@ == "No available workers"@,
                SchedulerError::Internal(m) => r@ == m@,
            },
    {
        match self {
            SchedulerError::RegistrationFailed(m) => m.clone(),
            SchedulerError::NoAvailableWorkers => String::from_str("No available workers"),
            SchedulerError::Internal(m) => m.clone(),
        }
    }
}

/// Failures of a worker.
#[derive(Clone, Debug)]
pub enum WorkerError {
    ExecutionFailed(String),
    TaskCancelled,
    Internal(String),
    SchedulerConnectionFailed(String),
}

impl WorkerError {
    pub fn status_kind(&self) -> (r: StatusKind)
        ensures
            r == match self {
                WorkerError::ExecutionFailed(_) => StatusKind::Internal,
                WorkerError::TaskCancelled => StatusKind::Cancelled,
                WorkerError::Internal(_) => StatusKind::Internal,
                WorkerError::SchedulerConnectionFailed(_) => StatusKind::Unavailable,
            },
    {
        match self {
            WorkerError::ExecutionFailed(_) => StatusKind::Internal,
            WorkerError::TaskCancelled => StatusKind::Cancelled,
            WorkerError::Internal(_) => StatusKind::Internal,
            WorkerError::SchedulerConnectionFailed(_) => StatusKind::Unavailable,
        }
    }

    /// The text carried with the status.
    pub fn status_message(&self) -> (r: String)
        ensures
            match self {
                WorkerError::ExecutionFailed(m) => r@ == m@,
                WorkerError::TaskCancelled => r@ == "Task was cancelled"@,
                WorkerError::Internal(m) => r@ == m@,
                WorkerError::SchedulerConnectionFailed(m) => r@ == m@,
            },
    {
        match self {
            WorkerError::ExecutionFailed(m) => m.clone(),
            WorkerError::TaskCancelled => String::from_str("Task was cancelled"),
            WorkerError::Internal(m) => m.clone(),
            WorkerError::SchedulerConnectionFailed(m) => m.clone(),
        }
    }
}

} // verus!
