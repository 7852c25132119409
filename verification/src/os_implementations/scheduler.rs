use crate::scan::texts;
use crate::text::{push_str, string_of};
use vstd::prelude::*;

verus! {

/// The three names by which the application is known to the operating
/// system, as in `dev.example.app`.
#[derive(Debug, PartialEq)]
pub struct JobIdentity {
    pub qualifier: String,
    pub organization: String,
    pub application: String,
}

impl JobIdentity {
    /// The three names joined by `separator`.
    pub open spec fn spec_joined(&self, separator: Seq<char>) -> Seq<char> {
        self.qualifier@ + separator + self.organization@ + separator + self.application@
    }

    /// The three names joined by `separator`.
    pub fn joined(&self, separator: &str) -> (out: String)
        ensures
            out@ == self.spec_joined(separator@),
    {
        let mut buf: Vec<char> = Vec::new();
        push_str(&mut buf, self.qualifier.as_str());
        push_str(&mut buf, separator);
        push_str(&mut buf, self.organization.as_str());
        push_str(&mut buf, separator);
        push_str(&mut buf, self.application.as_str());
        assert(buf@ =~= self.spec_joined(separator@));
        string_of(&buf)
    }
}

/// One step of a plan that installs or removes the periodic job.
#[derive(Debug, PartialEq)]
pub enum SchedulerAction {
    /// Write `contents` to the file `path`, in place of what it held.
    WriteFile { path: String, contents: String },
    /// Remove the file `path` if it is there.
    RemoveFile { path: String },
    /// Run `command`, which registers the job `job` or puts the newly
    /// registered one in place of an earlier one.
    Register { job: String, command: Vec<String> },
    /// Run `command`, which removes the job `job` if it is registered.
    Unregister { job: String, command: Vec<String> },
    /// Run `command`, which changes neither files nor jobs.
    Notify { command: Vec<String> },
}

/// What a plan can change: the files of the job's definition, and the jobs
/// that are registered, each with the command that registered it.
pub struct SchedulerState {
    pub files: Map<Seq<char>, Seq<char>>,
    pub jobs: Map<Seq<char>, Seq<Seq<char>>>,
}

/// The state after one action.
pub open spec fn apply(state: SchedulerState, action: SchedulerAction) -> SchedulerState {
    match action {
        SchedulerAction::WriteFile { path, contents } => SchedulerState {
            files: state.files.insert(path@, contents@),
            jobs: state.jobs,
        },
        SchedulerAction::RemoveFile { path } => SchedulerState {
            files: state.files.remove(path@),
            jobs: state.jobs,
        },
        SchedulerAction::Register { job, command } => SchedulerState {
            files: state.files,
            jobs: state.jobs.insert(job@, texts(command@)),
        },
        SchedulerAction::Unregister { job, command } => SchedulerState {
            files: state.files,
            jobs: state.jobs.remove(job@),
        },
        SchedulerAction::Notify { command } => state,
    }
}

/// The state after the actions of `plan`, carried out in order.
pub open spec fn apply_all(state: SchedulerState, plan: Seq<SchedulerAction>) -> SchedulerState
    decreases plan.len(),
{
    if plan.len() == 0 {
        state
    } else {
        apply(apply_all(state, plan.drop_last()), plan.last())
    }
}

/// The last value that `plan` gives the file `path`: `Some(Some(..))` for
/// a write, `Some(None)` for a removal, `None` where the plan leaves the
/// file alone.
pub open spec fn last_write(plan: Seq<SchedulerAction>, path: Seq<char>) -> Option<
    Option<Seq<char>>,
>
    decreases plan.len(),
{
    if plan.len() == 0 {
        None
    } else {
        match plan.last() {
            SchedulerAction::WriteFile { path: p, contents } if p@ == path => Some(
                Some(contents@),
            ),
            SchedulerAction::RemoveFile { path: p } if p@ == path => Some(None),
            _ => last_write(plan.drop_last(), path),
        }
    }
}

/// The last thing that `plan` does to the job `job`.
pub open spec fn last_registration(plan: Seq<SchedulerAction>, job: Seq<char>) -> Option<
    Option<Seq<Seq<char>>>,
>
    decreases plan.len(),
{
    if plan.len() == 0 {
        None
    } else {
        match plan.last() {
            SchedulerAction::Register { job: j, command } if j@ == job => Some(
                Some(texts(command@)),
            ),
            SchedulerAction::Unregister { job: j, command } if j@ == job => Some(None),
            _ => last_registration(plan.drop_last(), job),
        }
    }
}

/// What the file `path` holds, if it is there.
pub open spec fn file_at(state: SchedulerState, path: Seq<char>) -> Option<Seq<char>> {
    if state.files.dom().contains(path) {
        Some(state.files[path])
    } else {
        None
    }
}

/// The command that registered the job `job`, if it is registered.
pub open spec fn job_at(state: SchedulerState, job: Seq<char>) -> Option<Seq<Seq<char>>> {
    if state.jobs.dom().contains(job) {
        Some(state.jobs[job])
    } else {
        None
    }
}

/// After a plan, a file or job that the plan touched is as the plan left
/// it last, and every other one is as it was before.
pub proof fn lemma_apply_all(state: SchedulerState, plan: Seq<SchedulerAction>, name: Seq<char>)
    ensures
        file_at(apply_all(state, plan), name) == match last_write(plan, name) {
            Some(written) => written,
            None => file_at(state, name),
        },
        job_at(apply_all(state, plan), name) == match last_registration(plan, name) {
            Some(registered) => registered,
            None => job_at(state, name),
        },
    decreases plan.len(),
{
    if plan.len() > 0 {
        lemma_apply_all(state, plan.drop_last(), name);
    }
}

/// Carrying out a plan a second time changes nothing: the state after two
/// runs is the state after one.
pub proof fn lemma_apply_twice(state: SchedulerState, plan: Seq<SchedulerAction>)
    ensures
        apply_all(apply_all(state, plan), plan) == apply_all(state, plan),
{
    let once = apply_all(state, plan);
    let twice = apply_all(once, plan);
    assert forall|name: Seq<char>| file_at(twice, name) == file_at(once, name) && job_at(
        twice,
        name,
    ) == job_at(once, name) by {
        lemma_apply_all(state, plan, name);
        lemma_apply_all(once, plan, name);
    }
    assert forall|path: Seq<char>| #[trigger]
        twice.files.dom().contains(path) == once.files.dom().contains(path) by {
        assert(file_at(twice, path) == file_at(once, path));
    }
    assert forall|path: Seq<char>| once.files.dom().contains(path) implies #[trigger] twice.files[path]
        == once.files[path] by {
        assert(file_at(twice, path) == file_at(once, path));
    }
    assert(twice.files =~= once.files);
    assert forall|job: Seq<char>| #[trigger]
        twice.jobs.dom().contains(job) == once.jobs.dom().contains(job) by {
        assert(job_at(twice, job) == job_at(once, job));
    }
    assert forall|job: Seq<char>| once.jobs.dom().contains(job) implies #[trigger] twice.jobs[job]
        == once.jobs[job] by {
        assert(job_at(twice, job) == job_at(once, job));
    }
    assert(twice.jobs =~= once.jobs);
}

/// Whether the plan has failed when the command of `action` ends with a
/// status other than 0. A command that registers the job or notifies the
/// system has to succeed; one that removes the job may fail, as it does
/// where there is no job to remove.
pub fn failure_is_fatal(action: &SchedulerAction) -> (out: bool)
    ensures
        out == (*action is Register || *action is Notify),
{
    match action {
        SchedulerAction::Register { .. } => true,
        SchedulerAction::Notify { .. } => true,
        _ => false,
    }
}

/// The command of an action, for the caller to run; `None` for an action
/// on a file.
pub fn run_action(action: &SchedulerAction) -> (out: Option<&Vec<String>>)
    ensures
        match *action {
            SchedulerAction::Register { job, command } => out == Some(&command),
            SchedulerAction::Unregister { job, command } => out == Some(&command),
            SchedulerAction::Notify { command } => out == Some(&command),
            _ => out is None,
        },
{
    match action {
        SchedulerAction::Register { job: _, command } => Some(command),
        SchedulerAction::Unregister { job: _, command } => Some(command),
        SchedulerAction::Notify { command } => Some(command),
        _ => None,
    }
}

} // verus!
