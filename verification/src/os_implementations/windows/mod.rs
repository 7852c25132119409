//! Windows: the Task Scheduler.

mod errors;
mod task_scheduler;

pub use errors::WindowsError;
pub use task_scheduler::{
    handle_frequency, install_astra_task, is_uninstall_plan, lemma_absent_task_stays_absent, query_astra_task,
    spec_create_command, spec_task_name, task_name, uninstall_astra_task,
};
