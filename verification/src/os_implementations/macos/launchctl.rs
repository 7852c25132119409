//! The launchd agent: its property list, the commands that load and unload
//! it, and the reading of `launchctl print`.

use super::super::scheduler::{JobIdentity, SchedulerAction};
use crate::scan::{
    after_equals, first_with, lines, lines_of, position_with, texts, trim, trimmed,
    value_after_equals, word, word_from,
};
use crate::text::{
    chars_of, decimal, parse_unsigned, push_decimal, push_str, string_of, unsigned_value,
    utf8_lossy, utf8_lossy_of,
};
use vstd::prelude::*;
use vstd::string::StringExecFns;

verus! {

/// The agent runs every ten minutes; whether a run changes the wallpaper is
/// decided by the time of the last change.
pub const MAC_OS_LAUNCHCTL_INTERVAL: u64 = 600;

pub const PLIST_HEAD: &'static str =
    "<?xml version=\"1.0\" encoding=\"UTF-8\"?>\n<!DOCTYPE plist PUBLIC \"-//Apple//DTD PLIST 1.0//EN\" \"http://www.apple.com/DTDs/PropertyList-1.0.dtd\">\n<plist version=\"1.0\">\n    <dict>\n        <key>Label</key>\n        <string>";

pub const PLIST_PROGRAM: &'static str =
    "</string>\n        <key>Program</key>\n        <string>";

pub const PLIST_INTERVAL: &'static str =
    "</string>\n        <key>StartInterval</key>\n        <integer>";

pub const PLIST_TAIL: &'static str =
    "</integer>\n        <key>RunAtLoad</key>\n        <true/>\n    </dict>\n</plist>";

/// The label of the agent: the three names joined by dots.
pub open spec fn spec_job_label(identity: JobIdentity) -> Seq<char> {
    identity.spec_joined("."@)
}

/// The label of the agent.
pub fn job_label(identity: &JobIdentity) -> (out: String)
    ensures
        out@ == spec_job_label(*identity),
{
    identity.joined(".")
}

/// The name of the agent's property list in the directory of launch agents.
pub fn gen_plist_file_name(identity: &JobIdentity) -> (out: String)
    ensures
        out@ == spec_job_label(*identity) + ".plist"@,
{
    identity.joined(".").concat(".plist")
}

/// The property list of an agent with the given label that runs `program`
/// every `interval` seconds, and once when it is loaded.
pub open spec fn spec_plist(label: Seq<char>, program: Seq<char>, interval: nat) -> Seq<char> {
    PLIST_HEAD@ + label + PLIST_PROGRAM@ + program + PLIST_INTERVAL@ + decimal(interval)
        + PLIST_TAIL@
}

/// The property list of the agent, which runs the executable at
/// `executable_path` every ten minutes.
pub fn gen_plist_for_astra(identity: &JobIdentity, executable_path: &str) -> (out: String)
    ensures
        out@ == spec_plist(
            spec_job_label(*identity),
            executable_path@,
            MAC_OS_LAUNCHCTL_INTERVAL as nat,
        ),
{
    let label = job_label(identity);
    let mut buf: Vec<char> = Vec::new();
    push_str(&mut buf, PLIST_HEAD);
    push_str(&mut buf, label.as_str());
    push_str(&mut buf, PLIST_PROGRAM);
    push_str(&mut buf, executable_path);
    push_str(&mut buf, PLIST_INTERVAL);
    push_decimal(&mut buf, MAC_OS_LAUNCHCTL_INTERVAL);
    push_str(&mut buf, PLIST_TAIL);
    assert(buf@ =~= spec_plist(
        spec_job_label(*identity),
        executable_path@,
        MAC_OS_LAUNCHCTL_INTERVAL as nat,
    ));
    string_of(&buf)
}

/// The domain of the user's agents: `gui/` and the user's number.
pub fn gui_domain(user_id: &str) -> (out: String)
    ensures
        out@ == "gui/"@ + user_id@,
{
    String::from_str("gui/").concat(user_id)
}

/// `command` is the command line of the four given words.
pub open spec fn is_command4(
    command: Seq<String>,
    a: Seq<char>,
    b: Seq<char>,
    c: Seq<char>,
    d: Seq<char>,
) -> bool {
    texts(command) == seq![a, b, c, d]
}

fn command4(a: String, b: String, c: String, d: String) -> (out: Vec<String>)
    ensures
        is_command4(out@, a@, b@, c@, d@),
{
    let mut out: Vec<String> = Vec::new();
    out.push(a);
    out.push(b);
    out.push(c);
    out.push(d);
    assert(texts(out@) =~= seq![a@, b@, c@, d@]);
    out
}

/// The step that loads the agent: `launchctl bootstrap gui/<uid> <plist>`.
pub fn launchctl_bootstrap_astra(identity: &JobIdentity, plist_path: &str, user_id: &str) -> (out:
    SchedulerAction)
    ensures
        out matches SchedulerAction::Register { job, command } && job@ == spec_job_label(*identity)
            && is_command4(command@, "launchctl"@, "bootstrap"@, "gui/"@ + user_id@, plist_path@),
{
    SchedulerAction::Register {
        job: job_label(identity),
        command: command4(
            String::from_str("launchctl"),
            String::from_str("bootstrap"),
            gui_domain(user_id),
            String::from_str(plist_path),
        ),
    }
}

/// The step that unloads the agent: `launchctl bootout gui/<uid> <plist>`.
pub fn launchctl_bootout_astra(identity: &JobIdentity, plist_path: &str, user_id: &str) -> (out:
    SchedulerAction)
    ensures
        out matches SchedulerAction::Unregister { job, command } && job@ == spec_job_label(
            *identity,
        ) && is_command4(command@, "launchctl"@, "bootout"@, "gui/"@ + user_id@, plist_path@),
{
    SchedulerAction::Unregister {
        job: job_label(identity),
        command: command4(
            String::from_str("launchctl"),
            String::from_str("bootout"),
            gui_domain(user_id),
            String::from_str(plist_path),
        ),
    }
}

/// The command that asks launchd about the agent:
/// `launchctl print gui/<uid>/<label>`.
pub fn launchctl_print_command(identity: &JobIdentity, user_id: &str) -> (out: Vec<String>)
    ensures
        texts(out@) == seq![
            "launchctl"@,
            "print"@,
            "gui/"@ + user_id@ + "/"@ + spec_job_label(*identity),
        ],
{
    let label = job_label(identity);
    let target = gui_domain(user_id).concat("/").concat(label.as_str());
    let mut out: Vec<String> = Vec::new();
    out.push(String::from_str("launchctl"));
    out.push(String::from_str("print"));
    out.push(target);
    assert(texts(out@) =~= seq![
        "launchctl"@,
        "print"@,
        "gui/"@ + user_id@ + "/"@ + spec_job_label(*identity),
    ]);
    out
}

/// The plan that installs the agent: write the property list, then load it.
pub fn launchctl_install_astra_freq(
    identity: &JobIdentity,
    executable_path: &str,
    plist_path: &str,
    user_id: &str,
) -> (out: Vec<SchedulerAction>)
    ensures
        out@.len() == 2,
        out@[0] matches SchedulerAction::WriteFile { path, contents } && path@ == plist_path@
            && contents@ == spec_plist(
            spec_job_label(*identity),
            executable_path@,
            MAC_OS_LAUNCHCTL_INTERVAL as nat,
        ),
        out@[1] matches SchedulerAction::Register { job, command } && job@ == spec_job_label(
            *identity,
        ) && is_command4(command@, "launchctl"@, "bootstrap"@, "gui/"@ + user_id@, plist_path@),
{
    let mut out: Vec<SchedulerAction> = Vec::new();
    out.push(
        SchedulerAction::WriteFile {
            path: String::from_str(plist_path),
            contents: gen_plist_for_astra(identity, executable_path),
        },
    );
    out.push(launchctl_bootstrap_astra(identity, plist_path, user_id));
    out
}

/// The plan that removes the agent: unload it, then remove the property
/// list. Both steps are harmless where the agent is not installed.
pub fn launchctl_uninstall_astra_freq(identity: &JobIdentity, plist_path: &str, user_id: &str) -> (out:
    Vec<SchedulerAction>)
    ensures
        out@.len() == 2,
        out@[0] matches SchedulerAction::Unregister { job, command } && job@ == spec_job_label(
            *identity,
        ) && is_command4(command@, "launchctl"@, "bootout"@, "gui/"@ + user_id@, plist_path@),
        out@[1] matches SchedulerAction::RemoveFile { path } && path@ == plist_path@,
{
    let mut out: Vec<SchedulerAction> = Vec::new();
    out.push(launchctl_bootout_astra(identity, plist_path, user_id));
    out.push(SchedulerAction::RemoveFile { path: String::from_str(plist_path) });
    out
}

/// The run interval that `launchctl print` reports: in the first line that
/// mentions `run interval`, the first word after the `=`, read as a number.
pub open spec fn spec_extract_interval(text: Seq<char>) -> Option<u64> {
    let all = lines_of(text);
    let at = first_with(all, "run interval"@, 0);
    if at >= all.len() {
        None
    } else {
        match after_equals(all[at]) {
            None => None,
            Some(value) => match word_from(value, 0, 0) {
                None => None,
                Some(number) => match unsigned_value(number) {
                    Some(n) if n <= u64::MAX => Some(n as u64),
                    _ => None,
                },
            },
        }
    }
}

/// The run interval that `launchctl print` reports, in seconds.
pub fn extract_interval_text(text: &str) -> (out: Option<u64>)
    ensures
        out == spec_extract_interval(text@),
{
    let all = lines(text);
    let at = match position_with(&all, "run interval") {
        Some(at) => at,
        None => {
            return None;
        },
    };
    let line = chars_of(all[at].as_str());
    assert(line@ == lines_of(text@)[at as int]) by {
        assert(texts(all@)[at as int] == all@[at as int]@);
    }
    let value = match value_after_equals(&line) {
        Some(value) => value,
        None => {
            return None;
        },
    };
    let number = match word(&value, 0) {
        Some(number) => number,
        None => {
            return None;
        },
    };
    parse_unsigned(&number, u64::MAX)
}

/// The run interval in the printed state of the agent.
pub fn extract_interval(output: &[u8]) -> (out: Option<u64>)
    ensures
        out == spec_extract_interval(utf8_lossy_of(output@)),
{
    let text = utf8_lossy(output);
    extract_interval_text(text.as_str())
}

/// The interval of the installed agent, from the outcome of the command of
/// `launchctl_print_command`. A command that failed means that there is no
/// agent.
pub fn launchctl_check_existance_of_astra_job(succeeded: bool, output: &[u8]) -> (out: Option<u64>)
    ensures
        out == (if succeeded {
            spec_extract_interval(utf8_lossy_of(output@))
        } else {
            None
        }),
{
    if !succeeded {
        return None;
    }
    extract_interval(output)
}

/// The user's number from what `id -u` printed: the output without the
/// blanks around it.
pub fn get_user_id(output: &[u8]) -> (out: String)
    ensures
        out@ == trimmed(utf8_lossy_of(output@)),
{
    let text = utf8_lossy(output);
    let chars = chars_of(text.as_str());
    string_of(&trim(&chars))
}

} // verus!
