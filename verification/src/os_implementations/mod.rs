//! What each operating system needs: the texts of its job definitions, the
//! commands that register and remove the periodic job, and the reading of
//! what its tools print.
//!
//! Nothing here runs a command or touches a file. A plan is a list of
//! `SchedulerAction`s for the caller to carry out in order.

pub mod linux;
pub mod macos;
mod scheduler;
pub mod windows;

pub use scheduler::{
    apply, apply_all, failure_is_fatal, file_at, job_at, last_registration, last_write,
    lemma_apply_all, lemma_apply_twice, run_action, JobIdentity, SchedulerAction,
    SchedulerState,
};
