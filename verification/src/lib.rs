//! Scheduled execution of operator-defined commands inside containers:
//! the job model, the output-capture protocol, the retry policy for
//! startup jobs, and the scheduler's lifecycle, each with its contract.

pub mod attempt;
pub mod error;
pub mod job;
pub mod retry;
pub mod sched;
