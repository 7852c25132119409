//! The scheduled task: the `schtasks` commands that create, find and delete
//! it.

use super::super::scheduler::{apply_all, JobIdentity, SchedulerAction, SchedulerState};
use crate::configuration::{task_components, token_number, token_unit, Config, Frequency};
use crate::scan::texts;
use crate::text::{decimal, decimal_string};
use vstd::prelude::*;
use vstd::string::StringExecFns;

verus! {

/// The name of the task: the three names joined by underscores.
pub open spec fn spec_task_name(identity: JobIdentity) -> Seq<char> {
    identity.spec_joined("_"@)
}

/// The name of the task.
pub fn task_name(identity: &JobIdentity) -> (out: String)
    ensures
        out@ == spec_task_name(*identity),
{
    identity.joined("_")
}

/// The command that creates the task, or puts a new one in its place:
/// `schtasks /create /sc <type> /tn <name> /tr <program> /mo <modifier> /f`.
pub open spec fn spec_create_command(
    name: Seq<char>,
    program: Seq<char>,
    frequency: Seq<char>,
) -> Seq<Seq<char>> {
    let components = task_components(token_number(frequency), token_unit(frequency));
    seq![
        "schtasks"@,
        "/create"@,
        "/sc"@,
        components.1.name(),
        "/tn"@,
        name,
        "/tr"@,
        program,
        "/mo"@,
        decimal(components.0),
        "/f"@,
    ]
}

/// The step that installs the task for `frequency`, running the executable
/// at `executable_path`.
pub fn install_astra_task(identity: &JobIdentity, frequency: &Frequency, executable_path: &str) -> (out:
    SchedulerAction)
    ensures
        out matches SchedulerAction::Register { job, command } && job@ == spec_task_name(*identity)
            && texts(command@) == spec_create_command(
            spec_task_name(*identity),
            executable_path@,
            frequency@,
        ),
{
    let (mo, sc) = frequency.as_task_scheduler_components();
    let mut command: Vec<String> = Vec::new();
    command.push(String::from_str("schtasks"));
    command.push(String::from_str("/create"));
    command.push(String::from_str("/sc"));
    command.push(sc.to_string());
    command.push(String::from_str("/tn"));
    command.push(task_name(identity));
    command.push(String::from_str("/tr"));
    command.push(String::from_str(executable_path));
    command.push(String::from_str("/mo"));
    command.push(decimal_string(mo as u64));
    command.push(String::from_str("/f"));
    assert(texts(command@) =~= spec_create_command(
        spec_task_name(*identity),
        executable_path@,
        frequency@,
    ));
    SchedulerAction::Register { job: task_name(identity), command }
}

/// The command that asks whether the task exists:
/// `schtasks /query /tn <name>`.
pub fn query_astra_task(identity: &JobIdentity) -> (out: Vec<String>)
    ensures
        texts(out@) == seq!["schtasks"@, "/query"@, "/tn"@, spec_task_name(*identity)],
{
    let mut command: Vec<String> = Vec::new();
    command.push(String::from_str("schtasks"));
    command.push(String::from_str("/query"));
    command.push(String::from_str("/tn"));
    command.push(task_name(identity));
    assert(texts(command@) =~= seq!["schtasks"@, "/query"@, "/tn"@, spec_task_name(*identity)]);
    command
}

/// `plan` removes the task named `name`: nothing where the task is not
/// there, and `schtasks /delete /tn <name> /f` where it is.
pub open spec fn is_uninstall_plan(
    plan: Seq<SchedulerAction>,
    name: Seq<char>,
    task_present: bool,
) -> bool {
    if task_present {
        plan.len() == 1 && (plan[0] matches SchedulerAction::Unregister { job, command } && job@
            == name && texts(command@) == seq![
            "schtasks"@,
            "/delete"@,
            "/tn"@,
            name,
            "/f"@,
        ])
    } else {
        plan.len() == 0
    }
}

/// The plan that removes the task. `task_present` says whether the query
/// found it. A task that is not there needs no step at all; one that is
/// there is deleted with `schtasks /delete /tn <name> /f`.
pub fn uninstall_astra_task(identity: &JobIdentity, task_present: bool) -> (out: Vec<
    SchedulerAction,
>)
    ensures
        is_uninstall_plan(out@, spec_task_name(*identity), task_present),
        !task_present ==> out@.len() == 0,
{
    let mut out: Vec<SchedulerAction> = Vec::new();
    if task_present {
        let mut command: Vec<String> = Vec::new();
        command.push(String::from_str("schtasks"));
        command.push(String::from_str("/delete"));
        command.push(String::from_str("/tn"));
        command.push(task_name(identity));
        command.push(String::from_str("/f"));
        assert(texts(command@) =~= seq![
            "schtasks"@,
            "/delete"@,
            "/tn"@,
            spec_task_name(*identity),
            "/f"@,
        ]);
        out.push(SchedulerAction::Unregister { job: task_name(identity), command });
    }
    out
}

/// Removing a task that is not there succeeds without a step, and changes
/// nothing: neither a file nor a job is other than before.
pub proof fn lemma_absent_task_stays_absent(
    state: SchedulerState,
    plan: Seq<SchedulerAction>,
    name: Seq<char>,
)
    requires
        is_uninstall_plan(plan, name, false),
    ensures
        apply_all(state, plan) == state,
{
}

/// The plan that brings the task in line with the configuration: with a
/// frequency the task is installed, without one it is removed. The caller
/// goes on to change the wallpaper either way; it is the Task Scheduler
/// that decides when the program runs.
pub fn handle_frequency(
    config: &Config,
    identity: &JobIdentity,
    executable_path: &str,
    task_present: bool,
) -> (out: (Vec<SchedulerAction>, bool))
    ensures
        out.1,
        match config.spec_frequency() {
            Some(frequency) => out.0@.len() == 1 && (out.0@[0] matches SchedulerAction::Register {
                job,
                command,
            } && job@ == spec_task_name(*identity) && texts(command@) == spec_create_command(
                spec_task_name(*identity),
                executable_path@,
                frequency@,
            )),
            None => is_uninstall_plan(out.0@, spec_task_name(*identity), task_present),
        },
{
    match config.frequency() {
        Some(frequency) => {
            let mut plan: Vec<SchedulerAction> = Vec::new();
            plan.push(install_astra_task(identity, frequency, executable_path));
            (plan, true)
        },
        None => (uninstall_astra_task(identity, task_present), true),
    }
}

} // verus!
