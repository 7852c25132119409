//! The systemd user units: a one-shot service that runs the program, and a
//! timer that starts it.

use super::super::scheduler::SchedulerAction;
use super::errors::LinuxOSError;
use crate::configuration::{on_calendar, token_seconds, Config, Frequency};
use crate::scan::texts;
use vstd::prelude::*;
use vstd::string::StringExecFns;

verus! {

pub const SERVICE_HEAD: &'static str =
    "[Unit]\nDescription=Astra Wallpaper Updater\n\n[Service]\nType=oneshot\nExecStart=";

pub const TIMER_HEAD: &'static str =
    "[Unit]\nDescription=Run Astra Wallpaper on schedule\n\n[Timer]\nOnCalendar=";

pub const TIMER_TAIL: &'static str = "\nPersistent=true\n\n[Install]\nWantedBy=timers.target\n";

/// The service unit that runs `program` once.
pub open spec fn spec_service_file(program: Seq<char>) -> Seq<char> {
    SERVICE_HEAD@ + program + "\n"@
}

/// The timer unit that fires on `calendar` and catches up on what it missed.
pub open spec fn spec_timer_file(calendar: Seq<char>) -> Seq<char> {
    TIMER_HEAD@ + calendar + TIMER_TAIL@
}

/// The service unit, which runs the executable at `executable_path`.
pub fn gen_service_file(executable_path: &str) -> (out: String)
    ensures
        out@ == spec_service_file(executable_path@),
{
    String::from_str(SERVICE_HEAD).concat(executable_path).concat("\n")
}

/// The timer unit for the configured frequency. Without a frequency there
/// is no timer.
pub fn gen_timer_file(f: Option<&Frequency>) -> (out: Result<String, LinuxOSError>)
    ensures
        match f {
            Some(frequency) => out matches Ok(text) && text@ == spec_timer_file(
                on_calendar(token_seconds(frequency@)),
            ),
            None => out matches Err(LinuxOSError::GenerateTimer(m)) && m@
                == "Frequency must be defined in user configuration to generate a timer file"@,
        },
{
    match f {
        Some(frequency) => {
            let calendar = frequency.as_on_calendar_format();
            Ok(String::from_str(TIMER_HEAD).concat(calendar.as_str()).concat(TIMER_TAIL))
        },
        None => Err(
            LinuxOSError::GenerateTimer(
                String::from_str(
                    "Frequency must be defined in user configuration to generate a timer file",
                ),
            ),
        ),
    }
}

/// The path of the unit `unit` in the directory of the user's units.
pub fn unit_path(systemd_dir: &str, unit: &str) -> (out: String)
    ensures
        out@ == systemd_dir@ + "/"@ + unit@,
{
    String::from_str(systemd_dir).concat("/").concat(unit)
}

fn systemctl(words: Vec<String>) -> (out: Vec<String>)
    ensures
        texts(out@) == seq!["systemctl"@, "--user"@] + texts(words@),
{
    let mut out: Vec<String> = Vec::new();
    out.push(String::from_str("systemctl"));
    out.push(String::from_str("--user"));
    let mut words = words;
    let ghost tail = words@;
    out.append(&mut words);
    assert(texts(out@) =~= seq!["systemctl"@, "--user"@] + texts(tail));
    out
}

fn one_word(a: &str) -> (out: Vec<String>)
    ensures
        texts(out@) == seq![a@],
{
    let mut out: Vec<String> = Vec::new();
    out.push(String::from_str(a));
    assert(texts(out@) =~= seq![a@]);
    out
}

fn three_words(a: &str, b: &str, c: &str) -> (out: Vec<String>)
    ensures
        texts(out@) == seq![a@, b@, c@],
{
    let mut out: Vec<String> = Vec::new();
    out.push(String::from_str(a));
    out.push(String::from_str(b));
    out.push(String::from_str(c));
    assert(texts(out@) =~= seq![a@, b@, c@]);
    out
}

/// `plan` installs the units for a timer that fires on `calendar`: it
/// writes the service and the timer into `systemd_dir`, reloads the daemon,
/// and enables the timer and starts it at once.
pub open spec fn is_install_plan(
    plan: Seq<SchedulerAction>,
    systemd_dir: Seq<char>,
    program: Seq<char>,
    calendar: Seq<char>,
) -> bool {
    &&& plan.len() == 4
    &&& plan[0] matches SchedulerAction::WriteFile { path, contents } && path@ == systemd_dir
        + "/"@ + "astra.service"@ && contents@ == spec_service_file(program)
    &&& plan[1] matches SchedulerAction::WriteFile { path, contents } && path@ == systemd_dir
        + "/"@ + "astra.timer"@ && contents@ == spec_timer_file(calendar)
    &&& plan[2] matches SchedulerAction::Notify { command } && texts(command@) == seq![
        "systemctl"@,
        "--user"@,
    ] + seq!["daemon-reload"@]
    &&& plan[3] matches SchedulerAction::Register { job, command } && job@ == "astra.timer"@
        && texts(command@) == seq!["systemctl"@, "--user"@] + seq![
        "enable"@,
        "--now"@,
        "astra.timer"@,
    ]
}

/// `plan` removes the units: it disables and stops the timer, removes both
/// files from `systemd_dir`, and reloads the daemon.
pub open spec fn is_uninstall_plan(plan: Seq<SchedulerAction>, systemd_dir: Seq<char>) -> bool {
    &&& plan.len() == 4
    &&& plan[0] matches SchedulerAction::Unregister { job, command } && job@ == "astra.timer"@
        && texts(command@) == seq!["systemctl"@, "--user"@] + seq![
        "disable"@,
        "--now"@,
        "astra.timer"@,
    ]
    &&& plan[1] matches SchedulerAction::RemoveFile { path } && path@ == systemd_dir + "/"@
        + "astra.timer"@
    &&& plan[2] matches SchedulerAction::RemoveFile { path } && path@ == systemd_dir + "/"@
        + "astra.service"@
    &&& plan[3] matches SchedulerAction::Notify { command } && texts(command@) == seq![
        "systemctl"@,
        "--user"@,
    ] + seq!["daemon-reload"@]
}

/// The plan that installs the service and the timer for the configured
/// frequency. Without a frequency there is nothing to install.
pub fn install_astra_service_and_timer(
    config: &Config,
    systemd_dir: &str,
    executable_path: &str,
) -> (out: Result<Vec<SchedulerAction>, LinuxOSError>)
    ensures
        match config.spec_frequency() {
            Some(frequency) => out matches Ok(plan) && is_install_plan(
                plan@,
                systemd_dir@,
                executable_path@,
                on_calendar(token_seconds(frequency@)),
            ),
            None => out matches Err(LinuxOSError::GenerateTimer(_)),
        },
{
    let timer = gen_timer_file(config.frequency())?;
    let mut plan: Vec<SchedulerAction> = Vec::new();
    plan.push(
        SchedulerAction::WriteFile {
            path: unit_path(systemd_dir, "astra.service"),
            contents: gen_service_file(executable_path),
        },
    );
    plan.push(
        SchedulerAction::WriteFile { path: unit_path(systemd_dir, "astra.timer"), contents: timer },
    );
    plan.push(SchedulerAction::Notify { command: systemctl(one_word("daemon-reload")) });
    plan.push(
        SchedulerAction::Register {
            job: String::from_str("astra.timer"),
            command: systemctl(three_words("enable", "--now", "astra.timer")),
        },
    );
    Ok(plan)
}

/// The plan that removes the service and the timer. Every step is harmless
/// where they are not installed.
pub fn uninstall_astra_serivice_and_timer(systemd_dir: &str) -> (out: Vec<SchedulerAction>)
    ensures
        is_uninstall_plan(out@, systemd_dir@),
{
    let mut plan: Vec<SchedulerAction> = Vec::new();
    plan.push(
        SchedulerAction::Unregister {
            job: String::from_str("astra.timer"),
            command: systemctl(three_words("disable", "--now", "astra.timer")),
        },
    );
    plan.push(SchedulerAction::RemoveFile { path: unit_path(systemd_dir, "astra.timer") });
    plan.push(SchedulerAction::RemoveFile { path: unit_path(systemd_dir, "astra.service") });
    plan.push(SchedulerAction::Notify { command: systemctl(one_word("daemon-reload")) });
    plan
}

/// The plan that brings the units in line with the configuration: with a
/// frequency they are installed, without one they are removed. The caller
/// goes on to change the wallpaper either way; it is systemd that decides
/// when the program runs.
pub fn handle_frequency(config: &Config, systemd_dir: &str, executable_path: &str) -> (out: (
    Vec<SchedulerAction>,
    bool,
))
    ensures
        out.1,
        match config.spec_frequency() {
            Some(frequency) => is_install_plan(
                out.0@,
                systemd_dir@,
                executable_path@,
                on_calendar(token_seconds(frequency@)),
            ),
            None => is_uninstall_plan(out.0@, systemd_dir@),
        },
{
    match install_astra_service_and_timer(config, systemd_dir, executable_path) {
        Ok(plan) => (plan, true),
        Err(_) => (uninstall_astra_serivice_and_timer(systemd_dir), true),
    }
}

} // verus!
