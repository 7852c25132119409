//! The appearance of the desktop and the resolution of the display.

use super::errors::LinuxOSError;
use crate::scan::{
    count_leading, find, find_from, lines, lines_of, run_of, slice, spec_contains,
    str_contains, texts, trim, trimmed, word, word_from,
};
use crate::text::{chars_of, lowercase, lowercase_of, parse_unsigned, string_of, unsigned_value};
use vstd::prelude::*;
use vstd::string::StringExecFns;

verus! {

/// Whether dark mode is on, from what
/// `gsettings get org.gnome.desktop.interface color-scheme` printed: the
/// output mentions `prefer-dark`, in any case.
pub fn is_dark_mode_active(output: &str) -> (out: bool)
    ensures
        out == spec_contains(lowercase_of(trimmed(output@)), "prefer-dark"@),
{
    let chars = chars_of(output);
    let word = string_of(&trim(&chars));
    let lowered = lowercase(word.as_str());
    str_contains(lowered.as_str(), "prefer-dark")
}

/// The place behind the last character of `s[from..end]` that is no `c`.
pub open spec fn before_trailing(s: Seq<char>, c: char, from: int, end: int) -> int
    decreases end - from,
{
    if from < end <= s.len() && s[end - 1] == c {
        before_trailing(s, c, from, end - 1)
    } else {
        end
    }
}

/// `s` without the characters `c` at its start and at its end.
pub open spec fn without_around(s: Seq<char>, c: char) -> Seq<char> {
    let from = run_of(s, c, 0) as int;
    s.subrange(from, before_trailing(s, c, from, s.len() as int))
}

/// What stands in front of the first `c` in `s`; all of `s` where it has
/// none.
pub open spec fn up_to(s: Seq<char>, c: char) -> Seq<char> {
    match find_from(s, seq![c], 0) {
        Some(at) => s.subrange(0, at),
        None => s,
    }
}

/// What a line of `xrandr` says about the resolution.
pub enum LineReading {
    /// The line is not about the primary display, or names no geometry.
    Nothing,
    /// The geometry of the primary display holds no proper numbers.
    Unreadable,
    /// The width and the height of the primary display.
    Resolution(u32, u32),
}

/// What `line` says about the resolution. The line of the primary display
/// mentions `connected primary`, and its fourth word is the geometry, as in
/// `1920x1080+0+0`: the width, an `x`, the height, and offsets that begin
/// with `+`.
pub open spec fn read_line(line: Seq<char>) -> LineReading {
    if !spec_contains(line, "connected primary"@) {
        LineReading::Nothing
    } else {
        match word_from(line, 0, 3) {
            None => LineReading::Nothing,
            Some(geometry) => {
                let resolution = without_around(geometry, '+');
                match find_from(resolution, seq!['x'], 0) {
                    None => LineReading::Nothing,
                    Some(at) => {
                        let width = unsigned_value(resolution.subrange(0, at));
                        let height = unsigned_value(
                            up_to(resolution.subrange(at + 1, resolution.len() as int), '+'),
                        );
                        if width is Some && width.unwrap() <= u32::MAX && height is Some
                            && height.unwrap() <= u32::MAX {
                            LineReading::Resolution(width.unwrap() as u32, height.unwrap() as u32)
                        } else {
                            LineReading::Unreadable
                        }
                    },
                }
            },
        }
    }
}

/// The first of `all` from line `from` on that says something about the
/// resolution, or `Nothing` where none does.
pub open spec fn read_lines(all: Seq<Seq<char>>, from: int) -> LineReading
    decreases all.len() - from,
{
    if from < 0 || from >= all.len() {
        LineReading::Nothing
    } else {
        match read_line(all[from]) {
            LineReading::Nothing => read_lines(all, from + 1),
            reading => reading,
        }
    }
}

fn one_char(c: char) -> (out: Vec<char>)
    ensures
        out@ == seq![c],
{
    let mut out: Vec<char> = Vec::new();
    out.push(c);
    assert(out@ =~= seq![c]);
    out
}

fn trim_char(s: &Vec<char>, c: char) -> (out: Vec<char>)
    ensures
        out@ == without_around(s@, c),
{
    let from = count_leading(s, c);
    let mut end: usize = s.len();
    while end > from && s[end - 1] == c
        invariant
            from <= end <= s@.len(),
            before_trailing(s@, c, from as int, s@.len() as int) == before_trailing(
                s@,
                c,
                from as int,
                end as int,
            ),
        decreases end - from,
    {
        end = end - 1;
    }
    slice(s, from, end)
}

fn read_one_line(line: &str) -> (out: LineReading)
    ensures
        out == read_line(line@),
{
    if !str_contains(line, "connected primary") {
        return LineReading::Nothing;
    }
    let chars = chars_of(line);
    let geometry = match word(&chars, 3) {
        Some(geometry) => geometry,
        None => {
            return LineReading::Nothing;
        },
    };
    let resolution = trim_char(&geometry, '+');
    let total = resolution.len();
    let at = match find(&resolution, &one_char('x'), 0) {
        Some(at) => at,
        None => {
            return LineReading::Nothing;
        },
    };
    let width_text = slice(&resolution, 0, at);
    let rest = slice(&resolution, at + 1, total);
    let rest_total = rest.len();
    let height_text = match find(&rest, &one_char('+'), 0) {
        Some(plus) => slice(&rest, 0, plus),
        None => {
            assert(rest@.subrange(0, rest@.len() as int) =~= rest@);
            slice(&rest, 0, rest_total)
        },
    };
    match (parse_unsigned(&width_text, u32::MAX as u64), parse_unsigned(&height_text, u32::MAX as u64)) {
        (Some(width), Some(height)) => LineReading::Resolution(width as u32, height as u32),
        _ => LineReading::Unreadable,
    }
}

/// Reads the resolution of the primary display out of what
/// `xrandr --current` printed: the first line that names the geometry of
/// the primary display decides.
pub fn get_screen_resolution(output: &str) -> (out: Result<(u32, u32), LinuxOSError>)
    ensures
        match read_lines(lines_of(output@), 0) {
            LineReading::Resolution(width, height) => out == Ok::<(u32, u32), LinuxOSError>(
                (width, height),
            ),
            LineReading::Unreadable => out matches Err(LinuxOSError::ParseError(m)) && m@
                == "invalid digit found in string"@,
            LineReading::Nothing => out matches Err(LinuxOSError::ResolutionNotFound(m)) && m@
                == "Could not determine screen resolution"@,
        },
{
    let all = lines(output);
    let mut i: usize = 0;
    while i < all.len()
        invariant
            i <= all@.len(),
            texts(all@) == lines_of(output@),
            read_lines(lines_of(output@), 0) == read_lines(lines_of(output@), i as int),
        decreases all.len() - i,
    {
        assert(texts(all@)[i as int] == all@[i as int]@);
        match read_one_line(all[i].as_str()) {
            LineReading::Resolution(width, height) => {
                return Ok((width, height));
            },
            LineReading::Unreadable => {
                return Err(
                    LinuxOSError::ParseError(String::from_str("invalid digit found in string")),
                );
            },
            LineReading::Nothing => {},
        }
        i = i + 1;
    }
    Err(LinuxOSError::ResolutionNotFound(String::from_str("Could not determine screen resolution")))
}

} // verus!
