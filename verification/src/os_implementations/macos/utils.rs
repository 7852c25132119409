//! The display, the appearance and the time of the last run.

use super::errors::MacOSError;
use super::launchctl::MAC_OS_LAUNCHCTL_INTERVAL;
use crate::configuration::{token_seconds, Config, Frequency};
use crate::scan::{
    after_equals, count_leading, digits_in, first_with, keep_digits, leading_spaces,
    lemma_first_match, lines, lines_of, matches_at, position_with, position_with_str, skip_blanks,
    slice, split, split_by, str_texts, texts, trim, trim_end_from, trimmed, value_after_equals,
    views,
};
use crate::text::{
    chars_of, decimal, digits_value, is_digit, lemma_decimal_round_trip, lemma_decimal_shape,
    lemma_digits_in_are_digits, lowercase, lowercase_of, parse_decimal, parse_unsigned,
    push_decimal, push_str, str_equal, string_of, unsigned_value,
};
use vstd::prelude::*;
use vstd::string::StringExecFns;

verus! {

/// Whether dark mode is on, from what `defaults read -g AppleInterfaceStyle`
/// printed: the output says `dark`, in any case, with blanks around it at
/// most.
pub fn is_dark_mode_active(output: &str) -> (out: bool)
    ensures
        out == (lowercase_of(trimmed(output@)) == "dark"@),
{
    let chars = chars_of(output);
    let word = string_of(&trim(&chars));
    let lowered = lowercase(word.as_str());
    str_equal(lowered.as_str(), "dark")
}

/// The number of spaces in front of the first character of `line` that is
/// no space.
pub fn preceding_spaces(line: &str) -> (out: usize)
    ensures
        out as nat == leading_spaces(line@),
{
    let chars = chars_of(line);
    count_leading(&chars, ' ')
}

/// Adds `line` to `properties` if it is indented by exactly `num_spaces`
/// spaces, and says whether it did.
pub fn get_key_value_pair_based_on_spaces<'a>(
    properties: &mut Vec<&'a str>,
    line: &'a str,
    num_spaces: usize,
) -> (out: bool)
    ensures
        out == (leading_spaces(line@) == num_spaces),
        out ==> final(properties)@ == old(properties)@.push(line),
        !out ==> final(properties)@ == old(properties)@,
{
    if preceding_spaces(line) != num_spaces {
        false
    } else {
        properties.push(line);
        true
    }
}

/// How many lines right above line `at`, `at` included and line 0 never,
/// are indented by `indent` spaces without a break.
pub open spec fn above_run(all: Seq<Seq<char>>, at: int, indent: nat) -> nat
    decreases at,
{
    if 0 < at < all.len() && leading_spaces(all[at]) == indent {
        1 + above_run(all, at - 1, indent)
    } else {
        0
    }
}

/// How many lines from line `at` on are indented by `indent` spaces without
/// a break.
pub open spec fn below_run(all: Seq<Seq<char>>, at: int, indent: nat) -> nat
    decreases all.len() - at,
{
    if 0 <= at < all.len() && leading_spaces(all[at]) == indent {
        1 + below_run(all, at + 1, indent)
    } else {
        0
    }
}

/// The properties of the display whose line `main` says that it is the main
/// one: the lines around it that are indented as it is, first those above
/// it from the nearest on, then those below it.
pub open spec fn properties_of(all: Seq<Seq<char>>, main: int) -> Seq<Seq<char>> {
    let indent = leading_spaces(all[main]);
    Seq::new(above_run(all, main - 1, indent), |k: int| all[main - 1 - k]) + Seq::new(
        below_run(all, main + 1, indent),
        |k: int| all[main + 1 + k],
    )
}

/// The number that the digits of `part` spell, where there are any and it
/// fits in 32 bits.
pub open spec fn number_in(part: Seq<char>) -> Option<u32> {
    let digits = digits_in(part);
    if digits.len() > 0 && digits_value(digits) <= u32::MAX {
        Some(digits_value(digits) as u32)
    } else {
        None
    }
}

/// The resolution in a line such as `Resolution: 2560 x 1600 Retina`: the
/// line has to fall into two parts at ` x `, with a number in each.
pub open spec fn resolution_of(line: Seq<char>) -> Option<(u32, u32)> {
    let parts = split_by(line, " x "@);
    if parts.len() == 2 && number_in(parts[0]) is Some && number_in(parts[1]) is Some {
        Some((number_in(parts[0]).unwrap(), number_in(parts[1]).unwrap()))
    } else {
        None
    }
}

/// The resolution of the main display in the report of `system_profiler`.
pub open spec fn spec_parse_output(output: Seq<char>) -> Result<(u32, u32), MacOSError> {
    let all = lines_of(output);
    let main = first_with(all, "Main Display: Yes"@, 0);
    if main >= all.len() {
        Err(MacOSError::MainDisplayNotFound)
    } else if main == 0 {
        Err(MacOSError::ResolutionNotFound)
    } else {
        let properties = properties_of(all, main);
        let at = first_with(properties, "Resolution:"@, 0);
        if at >= properties.len() {
            Err(MacOSError::ResolutionNotFound)
        } else {
            match resolution_of(properties[at]) {
                Some(resolution) => Ok(resolution),
                None => Err(MacOSError::ResolutionNotFound),
            }
        }
    }
}

fn read_number(part: &Vec<char>) -> (out: Option<u32>)
    ensures
        out == number_in(part@),
{
    let digits = keep_digits(part);
    assert(digits@.subrange(0, digits@.len() as int) =~= digits@);
    proof {
        lemma_digits_in_are_digits(part@);
    }
    match parse_decimal(&digits, 0, digits.len()) {
        Some(v) => {
            if v <= u32::MAX as u64 {
                Some(v as u32)
            } else {
                None
            }
        },
        None => None,
    }
}

fn read_resolution(line: &str) -> (out: Option<(u32, u32)>)
    ensures
        out == resolution_of(line@),
{
    let chars = chars_of(line);
    let separator = chars_of(" x ");
    proof {
        reveal_strlit(" x ");
    }
    let parts = split(&chars, &separator);
    assert(views(parts@).len() == parts@.len());
    if parts.len() != 2 {
        return None;
    }
    assert(views(parts@)[0] == parts@[0]@ && views(parts@)[1] == parts@[1]@);
    match (read_number(&parts[0]), read_number(&parts[1])) {
        (Some(width), Some(height)) => Some((width, height)),
        _ => None,
    }
}

/// Reads the resolution of the main display out of the report that
/// `system_profiler SPDisplaysDataType -detailLevel mini` prints.
///
/// The display is the one with the line `Main Display: Yes`. Its properties
/// are the lines around that line with the same indentation. The first of
/// them that mentions `Resolution:` holds the width and the height.
pub fn parse_output(output: &str) -> (out: Result<(u32, u32), MacOSError>)
    ensures
        out == spec_parse_output(output@),
{
    let all = lines(output);
    let line_count = all.len();
    let ghost all_texts = lines_of(output@);
    let main_display_idx = match position_with(&all, "Main Display: Yes") {
        Some(at) => at,
        None => {
            return Err(MacOSError::MainDisplayNotFound);
        },
    };
    assert(all_texts[main_display_idx as int] == all@[main_display_idx as int]@);
    let num_spaces = preceding_spaces(all[main_display_idx].as_str());
    if main_display_idx == 0 {
        return Err(MacOSError::ResolutionNotFound);
    }
    let ghost indent = num_spaces as nat;
    let ghost up = above_run(all_texts, main_display_idx - 1, indent);
    let mut properties: Vec<&str> = Vec::new();
    // the lines above, from the nearest on
    let mut i: usize = main_display_idx - 1;
    assert(str_texts(properties@) =~= Seq::new(0, |k: int| all_texts[main_display_idx - 1 - k]));
    while i > 0
        invariant_except_break
            i < main_display_idx < all@.len(),
            texts(all@) == all_texts,
            indent == num_spaces,
            properties@.len() == main_display_idx - 1 - i,
            forall|k: int|
                0 <= k < properties@.len() ==> (#[trigger] properties@[k])@
                    == all_texts[main_display_idx - 1 - k],
            up == properties@.len() + above_run(all_texts, i as int, indent),
        ensures
            properties@.len() == up,
            up < main_display_idx,
            forall|k: int|
                0 <= k < properties@.len() ==> (#[trigger] properties@[k])@
                    == all_texts[main_display_idx - 1 - k],
        decreases i,
    {
        let line = all[i].as_str();
        assert(all_texts[i as int] == all@[i as int]@);
        let added_property = get_key_value_pair_based_on_spaces(&mut properties, line, num_spaces);
        if !added_property {
            break ;
        }
        i = i - 1;
    }
    // the lines below
    let ghost down = below_run(all_texts, main_display_idx + 1, indent);
    let mut i: usize = main_display_idx + 1;
    while i < line_count
        invariant_except_break
            main_display_idx < i <= all@.len(),
            line_count == all@.len(),
            texts(all@) == all_texts,
            indent == num_spaces,
            up < main_display_idx,
            properties@.len() == up + (i - main_display_idx - 1),
            forall|k: int|
                0 <= k < up ==> (#[trigger] properties@[k])@ == all_texts[main_display_idx - 1
                    - k],
            forall|k: int|
                0 <= k < i - main_display_idx - 1 ==> (#[trigger] properties@[up + k])@
                    == all_texts[main_display_idx + 1 + k],
            down == (i - main_display_idx - 1) + below_run(all_texts, i as int, indent),
        ensures
            properties@.len() == up + down,
            up < main_display_idx,
            main_display_idx + down < all@.len(),
            forall|k: int|
                0 <= k < up ==> (#[trigger] properties@[k])@ == all_texts[main_display_idx - 1
                    - k],
            forall|k: int|
                0 <= k < down ==> (#[trigger] properties@[up + k])@ == all_texts[main_display_idx
                    + 1 + k],
        decreases line_count - i,
    {
        let line = all[i].as_str();
        assert(all_texts[i as int] == all@[i as int]@);
        let ghost before = properties@;
        let added_property = get_key_value_pair_based_on_spaces(&mut properties, line, num_spaces);
        if !added_property {
            break ;
        }
        proof {
            assert forall|k: int| 0 <= k < up implies (#[trigger] properties@[k])@
                == all_texts[main_display_idx - 1 - k] by {
                assert(properties@[k] == before[k]);
            }
            assert forall|k: int| 0 <= k < i + 1 - main_display_idx - 1 implies (
            #[trigger] properties@[up + k])@ == all_texts[main_display_idx + 1 + k] by {
                if k < i - main_display_idx - 1 {
                    assert(properties@[up + k] == before[up + k]);
                }
            }
        }
        i = i + 1;
    }
    proof {
        let wanted = properties_of(all_texts, main_display_idx as int);
        assert(leading_spaces(all_texts[main_display_idx as int]) == indent);
        assert(wanted.len() == up + down);
        assert forall|k: int| 0 <= k < up + down implies str_texts(properties@)[k] == wanted[k] by {
            if k < up {
                assert(properties@[k]@ == all_texts[main_display_idx - 1 - k]);
            } else {
                assert(properties@[up + (k - up)]@ == all_texts[main_display_idx + 1 + (k - up)]);
            }
        }
        assert(str_texts(properties@) =~= wanted);
    }
    match position_with_str(&properties, "Resolution:") {
        None => Err(MacOSError::ResolutionNotFound),
        Some(at) => {
            assert(str_texts(properties@)[at as int] == properties@[at as int]@);
            match read_resolution(properties[at]) {
                Some(resolution) => Ok(resolution),
                None => Err(MacOSError::ResolutionNotFound),
            }
        },
    }
}

/// `s` without the line feed, or the carriage return and line feed, that
/// may end it.
pub open spec fn without_newline(s: Seq<char>) -> Seq<char> {
    if s.len() > 0 && s.last() == '\n' {
        let cut = s.drop_last();
        if cut.len() > 0 && cut.last() == '\r' {
            cut.drop_last()
        } else {
            cut
        }
    } else {
        s
    }
}

/// Takes the line ending off the end of `s`.
pub fn trim_newline(s: &mut String)
    ensures
        final(s)@ == without_newline(old(s)@),
{
    let chars = chars_of(s.as_str());
    let n = chars.len();
    if n > 0 && chars[n - 1] == '\n' {
        let end = if n > 1 && chars[n - 2] == '\r' {
            n - 2
        } else {
            n - 1
        };
        let cut = slice(&chars, 0, end);
        proof {
            let dropped = chars@.drop_last();
            assert(dropped =~= chars@.subrange(0, n - 1));
            if n > 1 && chars@[n - 2] == '\r' {
                assert(dropped.drop_last() =~= chars@.subrange(0, n - 2));
            }
        }
        *s = string_of(&cut);
    }
}

/// What the orchestrator does about the schedule before anything else.
#[derive(Debug, PartialEq, Eq, Clone, Copy, Structural)]
pub enum FrequencyStep {
    /// A frequency is configured: look the agent up, install it where it is
    /// missing, and go on only if the wallpaper is due.
    Inspect,
    /// No frequency is configured: remove the agent and go on.
    Uninstall,
}

/// What the orchestrator does about the schedule.
pub fn handle_frequency(config: &Config) -> (out: FrequencyStep)
    ensures
        out == (if config.spec_frequency() is Some {
            FrequencyStep::Inspect
        } else {
            FrequencyStep::Uninstall
        }),
{
    if config.frequency().is_some() {
        FrequencyStep::Inspect
    } else {
        FrequencyStep::Uninstall
    }
}

/// Whether the agent has to be installed: it is missing, or runs at another
/// interval than every ten minutes.
pub fn needs_install(registered_interval: Option<u64>) -> (out: bool)
    ensures
        out == (registered_interval != Some(MAC_OS_LAUNCHCTL_INTERVAL)),
{
    match registered_interval {
        Some(interval) => interval != MAC_OS_LAUNCHCTL_INTERVAL,
        None => true,
    }
}

/// Whether the wallpaper is due at time `now` when it was last changed at
/// `last_run`: at least the configured duration has passed.
pub fn is_due(now: u64, last_run: u64, frequency: &Frequency) -> (out: bool)
    ensures
        out == (now - last_run >= token_seconds(frequency@)),
{
    match frequency.checked_seconds() {
        Some(seconds) => now >= last_run && now - last_run >= seconds,
        None => false,
    }
}

/// The time of the last run in the contents of the file that records it:
/// the number after the `=`, with blanks around it at most.
pub open spec fn spec_last_execution(contents: Seq<char>) -> Option<u64> {
    match after_equals(contents) {
        Some(value) => match unsigned_value(trimmed(value)) {
            Some(n) if n <= u64::MAX => Some(n as u64),
            _ => None,
        },
        None => None,
    }
}

/// The time of the last run. `contents` is what the file that records it
/// holds, or `None` where there is no such file, which counts as a last run
/// at the beginning of time.
pub fn retrieve_last_execution_time(contents: Option<&str>) -> (out: Result<u64, MacOSError>)
    ensures
        match contents {
            None => out == Ok::<u64, MacOSError>(0),
            Some(text) => match spec_last_execution(text@) {
                Some(time) => out == Ok::<u64, MacOSError>(time),
                None => out matches Err(MacOSError::ParseError(m)) && m@ == (
                if after_equals(text@) is None {
                    "should be a time stamp"@
                } else {
                    "invalid digit found in string"@
                }),
            },
        },
{
    let text = match contents {
        Some(text) => text,
        None => {
            return Ok(0);
        },
    };
    let chars = chars_of(text);
    let value = match value_after_equals(&chars) {
        Some(value) => value,
        None => {
            return Err(MacOSError::ParseError(String::from_str("should be a time stamp")));
        },
    };
    match parse_unsigned(&trim(&value), u64::MAX) {
        Some(time) => Ok(time),
        None => Err(MacOSError::ParseError(String::from_str("invalid digit found in string"))),
    }
}

/// What the file that records the last run holds after a run at `now`.
pub open spec fn spec_saved_time(now: nat) -> Seq<char> {
    "last_run = "@ + decimal(now)
}

/// What to write to the file that records the last run, after a run at
/// `now`.
pub fn save_last_execution_time(now: u64) -> (out: String)
    ensures
        out@ == spec_saved_time(now as nat),
{
    let mut buf: Vec<char> = Vec::new();
    push_str(&mut buf, "last_run = ");
    push_decimal(&mut buf, now);
    assert(buf@ =~= spec_saved_time(now as nat));
    string_of(&buf)
}

/// What is written after a run is read back as the time of that run.
pub proof fn lemma_saved_time_reads_back(now: nat)
    requires
        now <= u64::MAX,
    ensures
        spec_last_execution(spec_saved_time(now)) == Some(now as u64),
{
    reveal_strlit("last_run = ");
    let head = "last_run = "@;
    let digits = decimal(now);
    let text = head + digits;
    lemma_decimal_shape(now);
    lemma_decimal_round_trip(now);
    let sign = seq!['='];
    assert(matches_at(text, sign, 9)) by {
        assert(text.subrange(9, 10) =~= sign);
    }
    assert forall|k: int| 0 <= k < 9 implies !matches_at(text, sign, k) by {
        if matches_at(text, sign, k) {
            assert(text.subrange(k, k + 1)[0] == text[k]);
            assert(text[k] == head[k]);
        }
    }
    lemma_first_match(text, sign, 0, 9);
    let value = text.subrange(10, text.len() as int);
    assert(value =~= seq![' '] + digits);
    assert(after_equals(text) == Some(value));
    assert(is_digit(digits[0]) && is_digit(digits.last()));
    assert(value[0] == ' ' && value[1] == digits[0] && value.last() == digits.last());
    reveal_with_fuel(skip_blanks, 3);
    assert(skip_blanks(value, 0) == 1);
    assert(trim_end_from(value, 1, value.len() as int) == value.len());
    assert(trimmed(value) =~= digits);
    assert(digits[0] != '+');
    assert(unsigned_value(digits) == Some(now));
}

} // verus!
