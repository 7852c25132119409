//! Searching and cutting text: lines, substrings, separators and blanks.
//!
//! Texts are handled as vectors of characters. Places in a text are counted
//! in characters from 0.

use crate::text::{chars_of, is_digit, is_digit_char, string_of};
use vstd::prelude::*;

verus! {

/// The texts that the vectors of `items` hold, in order.
pub open spec fn views(items: Seq<Vec<char>>) -> Seq<Seq<char>> {
    Seq::new(items.len(), |i: int| items[i]@)
}

/// `needle` stands in `hay` at place `at`.
pub open spec fn matches_at(hay: Seq<char>, needle: Seq<char>, at: int) -> bool {
    0 <= at && at + needle.len() <= hay.len() && hay.subrange(at, at + needle.len()) == needle
}

/// The first place at or after `from` where `needle` stands in `hay`.
pub open spec fn find_from(hay: Seq<char>, needle: Seq<char>, from: int) -> Option<int>
    decreases hay.len() - from,
{
    if from < 0 || from + needle.len() > hay.len() {
        None
    } else if matches_at(hay, needle, from) {
        Some(from)
    } else if from >= hay.len() {
        None
    } else {
        find_from(hay, needle, from + 1)
    }
}

/// `needle` stands somewhere in `hay`.
pub open spec fn spec_contains(hay: Seq<char>, needle: Seq<char>) -> bool {
    find_from(hay, needle, 0) is Some
}

/// What `find_from` finds is the first match, and it finds one where there
/// is any.
pub proof fn lemma_find_from(hay: Seq<char>, needle: Seq<char>, from: int)
    requires
        0 <= from,
    ensures
        match find_from(hay, needle, from) {
            Some(at) => from <= at && matches_at(hay, needle, at) && forall|k: int|
                from <= k < at ==> !matches_at(hay, needle, k),
            None => forall|k: int| from <= k ==> !matches_at(hay, needle, k),
        },
    decreases hay.len() - from,
{
    if from + needle.len() <= hay.len() && !matches_at(hay, needle, from) {
        if from < hay.len() {
            lemma_find_from(hay, needle, from + 1);
        } else {
            assert(needle.len() == 0);
            assert(hay.subrange(from, from + needle.len()) =~= needle);
        }
    }
}

/// The first match at or after `from` is what `find_from` finds.
pub proof fn lemma_first_match(hay: Seq<char>, needle: Seq<char>, from: int, at: int)
    requires
        0 <= from <= at,
        matches_at(hay, needle, at),
        forall|k: int| from <= k < at ==> !matches_at(hay, needle, k),
    ensures
        find_from(hay, needle, from) == Some(at),
    decreases at - from,
{
    if from < at {
        lemma_first_match(hay, needle, from + 1, at);
    }
}

/// Whether `needle` stands in `hay` at place `at`.
pub fn is_match_at(hay: &Vec<char>, needle: &Vec<char>, at: usize) -> (out: bool)
    ensures
        out == matches_at(hay@, needle@, at as int),
{
    if at > hay.len() || needle.len() > hay.len() - at {
        return false;
    }
    let ghost window = hay@.subrange(at as int, at + needle@.len());
    let mut i: usize = 0;
    while i < needle.len()
        invariant
            i <= needle@.len(),
            at + needle@.len() <= hay@.len() <= usize::MAX,
            window == hay@.subrange(at as int, at + needle@.len()),
            forall|k: int| 0 <= k < i ==> window[k] == needle@[k],
        decreases needle.len() - i,
    {
        if hay[at + i] != needle[i] {
            assert(window[i as int] != needle@[i as int]);
            return false;
        }
        i = i + 1;
    }
    assert(window =~= needle@);
    true
}

/// The first place at or after `from` where `needle` stands in `hay`.
pub fn find(hay: &Vec<char>, needle: &Vec<char>, from: usize) -> (out: Option<usize>)
    ensures
        out is Some <==> find_from(hay@, needle@, from as int) is Some,
        out matches Some(at) ==> find_from(hay@, needle@, from as int) == Some(at as int) && from
            <= at && at + needle@.len() <= hay@.len(),
{
    if needle.len() > hay.len() || from > hay.len() - needle.len() {
        return None;
    }
    let last = hay.len() - needle.len();
    let mut at: usize = from;
    while at < last
        invariant
            from <= at <= last,
            last == hay@.len() - needle@.len(),
            find_from(hay@, needle@, from as int) == find_from(hay@, needle@, at as int),
        decreases last - at,
    {
        if is_match_at(hay, needle, at) {
            return Some(at);
        }
        at = at + 1;
    }
    if is_match_at(hay, needle, last) {
        Some(last)
    } else {
        assert(find_from(hay@, needle@, last + 1) is None);
        None
    }
}

/// Whether `needle` stands somewhere in `hay`.
pub fn contains(hay: &Vec<char>, needle: &Vec<char>) -> (out: bool)
    ensures
        out == spec_contains(hay@, needle@),
{
    find(hay, needle, 0).is_some()
}

/// A line without the carriage return that may end it.
pub open spec fn strip_cr(line: Seq<char>) -> Seq<char> {
    if line.len() > 0 && line.last() == '\r' {
        line.drop_last()
    } else {
        line
    }
}

/// The lines of `text` from place `from` on, where the line that is being
/// read began at `start`.
pub open spec fn lines_from(text: Seq<char>, from: int, start: int) -> Seq<Seq<char>>
    decreases text.len() - from,
{
    if from >= text.len() {
        if start < text.len() {
            seq![text.subrange(start, text.len() as int)]
        } else {
            Seq::empty()
        }
    } else if text[from] == '\n' {
        seq![strip_cr(text.subrange(start, from))] + lines_from(text, from + 1, from + 1)
    } else {
        lines_from(text, from + 1, start)
    }
}

/// The lines of `text`. A line ends with a line feed, or with a carriage
/// return and a line feed; neither belongs to the line. The last line needs
/// no line feed, and a text that ends with one has no empty line after it.
pub open spec fn lines_of(text: Seq<char>) -> Seq<Seq<char>> {
    lines_from(text, 0, 0)
}

/// The characters `text[from..to]`.
pub fn slice(text: &Vec<char>, from: usize, to: usize) -> (out: Vec<char>)
    requires
        from <= to <= text@.len(),
    ensures
        out@ == text@.subrange(from as int, to as int),
{
    let mut out: Vec<char> = Vec::new();
    let mut i: usize = from;
    while i < to
        invariant
            from <= i <= to <= text@.len(),
            out@ == text@.subrange(from as int, i as int),
        decreases to - i,
    {
        out.push(text[i]);
        assert(text@.subrange(from as int, i + 1) =~= text@.subrange(from as int, i as int).push(
            text@[i as int],
        ));
        i = i + 1;
    }
    out
}

/// The lines of `text`.
pub fn split_lines(text: &Vec<char>) -> (out: Vec<Vec<char>>)
    ensures
        views(out@) == lines_of(text@),
{
    let mut out: Vec<Vec<char>> = Vec::new();
    let mut start: usize = 0;
    let mut i: usize = 0;
    assert(views(out@) + lines_from(text@, 0, 0) =~= lines_of(text@));
    while i < text.len()
        invariant
            start <= i <= text@.len(),
            lines_of(text@) == views(out@) + lines_from(text@, i as int, start as int),
        decreases text.len() - i,
    {
        if text[i] == '\n' {
            let mut end = i;
            if end > start && text[end - 1] == '\r' {
                end = end - 1;
            }
            let line = slice(text, start, end);
            proof {
                let raw = text@.subrange(start as int, i as int);
                assert(line@ =~= strip_cr(raw)) by {
                    if raw.len() > 0 && raw.last() == '\r' {
                        assert(raw.drop_last() =~= text@.subrange(start as int, i - 1));
                    }
                }
                let rest = lines_from(text@, i + 1, i + 1);
                assert(views(out@.push(line)) =~= views(out@) + seq![line@]);
                assert(views(out@) + (seq![line@] + rest) =~= (views(out@) + seq![line@]) + rest);
            }
            out.push(line);
            start = i + 1;
        }
        i = i + 1;
    }
    if start < text.len() {
        let line = slice(text, start, text.len());
        proof {
            assert(views(out@.push(line)) =~= views(out@) + seq![line@]);
        }
        out.push(line);
    } else {
        assert(views(out@) + Seq::<Seq<char>>::empty() =~= views(out@));
    }
    out
}

/// The number of characters `c` that `s` has from place `from` on before
/// any other character.
pub open spec fn run_of(s: Seq<char>, c: char, from: int) -> nat
    decreases s.len() - from,
{
    if 0 <= from < s.len() && s[from] == c {
        1 + run_of(s, c, from + 1)
    } else {
        0
    }
}

/// The number of spaces in front of the first character that is none.
pub open spec fn leading_spaces(line: Seq<char>) -> nat {
    run_of(line, ' ', 0)
}

/// The number of characters `c` at the start of `s`.
pub fn count_leading(s: &Vec<char>, c: char) -> (out: usize)
    ensures
        out as nat == run_of(s@, c, 0),
        out <= s@.len(),
{
    let mut i: usize = 0;
    while i < s.len() && s[i] == c
        invariant
            i <= s@.len(),
            run_of(s@, c, 0) == i + run_of(s@, c, i as int),
        decreases s.len() - i,
    {
        i = i + 1;
    }
    i
}

/// The pieces of `s` between the occurrences of `separator`, read from
/// place `start` on. Occurrences are taken from left to right and do not
/// overlap.
pub open spec fn split_from(s: Seq<char>, separator: Seq<char>, start: int) -> Seq<Seq<char>>
    decreases s.len() - start,
{
    match find_from(s, separator, start) {
        Some(at) if at >= start && separator.len() > 0 && at + separator.len() <= s.len() => seq![
            s.subrange(start, at),
        ] + split_from(
            s,
            separator,
            at + separator.len(),
        ),
        _ => seq![s.subrange(start, s.len() as int)],
    }
}

/// The pieces of `s` between the occurrences of `separator`.
pub open spec fn split_by(s: Seq<char>, separator: Seq<char>) -> Seq<Seq<char>> {
    split_from(s, separator, 0)
}

/// The pieces of `s` between the occurrences of `separator`.
pub fn split(s: &Vec<char>, separator: &Vec<char>) -> (out: Vec<Vec<char>>)
    requires
        separator@.len() > 0,
    ensures
        views(out@) == split_by(s@, separator@),
{
    let mut out: Vec<Vec<char>> = Vec::new();
    let mut start: usize = 0;
    let total = s.len();
    assert(views(out@) + split_from(s@, separator@, 0) =~= split_by(s@, separator@));
    loop
        invariant_except_break
            start <= s@.len() == total,
            separator@.len() > 0,
            split_by(s@, separator@) == views(out@) + split_from(s@, separator@, start as int),
        ensures
            views(out@) == split_by(s@, separator@),
        decreases s@.len() - start,
    {
        match find(s, separator, start) {
            Some(at) => {
                let piece = slice(s, start, at);
                proof {
                    let rest = split_from(s@, separator@, at + separator@.len());
                    assert(views(out@.push(piece)) =~= views(out@) + seq![piece@]);
                    assert(views(out@) + (seq![piece@] + rest) =~= (views(out@) + seq![piece@])
                        + rest);
                }
                out.push(piece);
                start = at + separator.len();
            },
            None => {
                let piece = slice(s, start, total);
                proof {
                    assert(views(out@.push(piece)) =~= views(out@) + seq![piece@]);
                }
                out.push(piece);
                break ;
            },
        }
    }
    out
}

/// The digits of `s`, in order, without the other characters.
pub open spec fn digits_in(s: Seq<char>) -> Seq<char>
    decreases s.len(),
{
    if s.len() == 0 {
        Seq::empty()
    } else if is_digit(s.last()) {
        digits_in(s.drop_last()).push(s.last())
    } else {
        digits_in(s.drop_last())
    }
}

/// The digits of `s`, in order, without the other characters.
pub fn keep_digits(s: &Vec<char>) -> (out: Vec<char>)
    ensures
        out@ == digits_in(s@),
{
    let mut out: Vec<char> = Vec::new();
    let mut i: usize = 0;
    while i < s.len()
        invariant
            i <= s@.len(),
            out@ == digits_in(s@.take(i as int)),
        decreases s.len() - i,
    {
        proof {
            let next = s@.take(i + 1);
            assert(next.drop_last() =~= s@.take(i as int));
            assert(next.last() == s@[i as int]);
        }
        if is_digit_char(s[i]) {
            out.push(s[i]);
        }
        i = i + 1;
    }
    assert(s@.take(s@.len() as int) =~= s@);
    out
}

/// `c` is a blank: a character with the Unicode property `White_Space`.
pub open spec fn is_blank(c: char) -> bool {
    let code = c as u32;
    ||| 0x09 <= code <= 0x0d
    ||| code == 0x20
    ||| code == 0x85
    ||| code == 0xa0
    ||| code == 0x1680
    ||| 0x2000 <= code <= 0x200a
    ||| code == 0x2028
    ||| code == 0x2029
    ||| code == 0x202f
    ||| code == 0x205f
    ||| code == 0x3000
}

/// Whether `c` is a blank.
pub fn is_blank_char(c: char) -> (out: bool)
    ensures
        out == is_blank(c),
{
    let code = c as u32;
    (0x09 <= code && code <= 0x0d) || code == 0x20 || code == 0x85 || code == 0xa0 || code
        == 0x1680 || (0x2000 <= code && code <= 0x200a) || code == 0x2028 || code == 0x2029
        || code == 0x202f || code == 0x205f || code == 0x3000
}

/// The first place at or after `from` that holds no blank, or the length of
/// `s` where only blanks follow.
pub open spec fn skip_blanks(s: Seq<char>, from: int) -> int
    decreases s.len() - from,
{
    if 0 <= from < s.len() && is_blank(s[from]) {
        skip_blanks(s, from + 1)
    } else {
        from
    }
}

/// The first place at or after `from` that holds a blank, or the length of
/// `s` where none follows.
pub open spec fn skip_word(s: Seq<char>, from: int) -> int
    decreases s.len() - from,
{
    if 0 <= from < s.len() && !is_blank(s[from]) {
        skip_word(s, from + 1)
    } else {
        from
    }
}

/// The place behind the last character that is no blank, but not in front
/// of `from`.
pub open spec fn trim_end_from(s: Seq<char>, from: int, end: int) -> int
    decreases end - from,
{
    if from < end <= s.len() && is_blank(s[end - 1]) {
        trim_end_from(s, from, end - 1)
    } else {
        end
    }
}

/// `s` without the blanks at its start and at its end.
pub open spec fn trimmed(s: Seq<char>) -> Seq<char> {
    let from = skip_blanks(s, 0);
    if from >= s.len() {
        Seq::empty()
    } else {
        s.subrange(from, trim_end_from(s, from, s.len() as int))
    }
}

/// The first place at or after `from` that holds no blank.
pub fn after_blanks(s: &Vec<char>, from: usize) -> (out: usize)
    requires
        from <= s@.len(),
    ensures
        out as int == skip_blanks(s@, from as int),
        from <= out <= s@.len(),
{
    let mut i: usize = from;
    while i < s.len() && is_blank_char(s[i])
        invariant
            from <= i <= s@.len(),
            skip_blanks(s@, from as int) == skip_blanks(s@, i as int),
        decreases s.len() - i,
    {
        i = i + 1;
    }
    i
}

/// The first place at or after `from` that holds a blank.
pub fn after_word(s: &Vec<char>, from: usize) -> (out: usize)
    requires
        from <= s@.len(),
    ensures
        out as int == skip_word(s@, from as int),
        from <= out <= s@.len(),
{
    let mut i: usize = from;
    while i < s.len() && !is_blank_char(s[i])
        invariant
            from <= i <= s@.len(),
            skip_word(s@, from as int) == skip_word(s@, i as int),
        decreases s.len() - i,
    {
        i = i + 1;
    }
    i
}

/// `s` without the blanks at its start and at its end.
pub fn trim(s: &Vec<char>) -> (out: Vec<char>)
    ensures
        out@ == trimmed(s@),
{
    let from = after_blanks(s, 0);
    if from >= s.len() {
        return Vec::new();
    }
    let mut end: usize = s.len();
    while end > from && is_blank_char(s[end - 1])
        invariant
            from <= end <= s@.len(),
            trim_end_from(s@, from as int, s@.len() as int) == trim_end_from(
                s@,
                from as int,
                end as int,
            ),
        decreases end - from,
    {
        end = end - 1;
    }
    slice(s, from, end)
}

/// The `n`-th word of `s`, counted from 0, read from place `from` on: words
/// are what stands between blanks.
pub open spec fn word_from(s: Seq<char>, from: int, n: nat) -> Option<Seq<char>>
    decreases n,
{
    let begin = skip_blanks(s, from);
    if begin < 0 || begin >= s.len() {
        None
    } else {
        let end = skip_word(s, begin);
        if n == 0 {
            Some(s.subrange(begin, end))
        } else {
            word_from(s, end, (n - 1) as nat)
        }
    }
}

/// The `n`-th word of `s`, counted from 0.
pub fn word(s: &Vec<char>, n: usize) -> (out: Option<Vec<char>>)
    ensures
        out is Some <==> word_from(s@, 0, n as nat) is Some,
        out matches Some(w) ==> Some(w@) == word_from(s@, 0, n as nat),
{
    let mut from: usize = 0;
    let mut left: usize = n;
    loop
        invariant
            from <= s@.len(),
            left <= n,
            word_from(s@, 0, n as nat) == word_from(s@, from as int, left as nat),
        decreases left,
    {
        let begin = after_blanks(s, from);
        if begin >= s.len() {
            return None;
        }
        let end = after_word(s, begin);
        if left == 0 {
            return Some(slice(s, begin, end));
        }
        from = end;
        left = left - 1;
    }
}

/// The texts of `items`, in order.
pub open spec fn texts(items: Seq<String>) -> Seq<Seq<char>> {
    Seq::new(items.len(), |i: int| items[i]@)
}

/// The texts of borrowed `items`, in order.
pub open spec fn str_texts(items: Seq<&str>) -> Seq<Seq<char>> {
    Seq::new(items.len(), |i: int| items[i]@)
}

/// The lines of `text`, each as a string of its own.
pub fn lines(text: &str) -> (out: Vec<String>)
    ensures
        texts(out@) == lines_of(text@),
{
    let chars = chars_of(text);
    let pieces = split_lines(&chars);
    let mut out: Vec<String> = Vec::new();
    let mut i: usize = 0;
    while i < pieces.len()
        invariant
            i <= pieces@.len(),
            out@.len() == i,
            forall|j: int| 0 <= j < i ==> (#[trigger] out@[j])@ == pieces@[j]@,
        decreases pieces.len() - i,
    {
        out.push(string_of(&pieces[i]));
        i = i + 1;
    }
    assert(texts(out@) =~= views(pieces@));
    out
}

/// Whether `needle` stands somewhere in `hay`.
pub fn str_contains(hay: &str, needle: &str) -> (out: bool)
    ensures
        out == spec_contains(hay@, needle@),
{
    let hay_chars = chars_of(hay);
    let needle_chars = chars_of(needle);
    contains(&hay_chars, &needle_chars)
}

/// The place of the first of `lines` at or after `from` in which `needle`
/// stands; the number of lines where there is none.
pub open spec fn first_with(lines: Seq<Seq<char>>, needle: Seq<char>, from: int) -> int
    decreases lines.len() - from,
{
    if from < 0 || from >= lines.len() {
        lines.len() as int
    } else if spec_contains(lines[from], needle) {
        from
    } else {
        first_with(lines, needle, from + 1)
    }
}

/// The place of the first of `lines` in which `needle` stands.
pub fn position_with(lines: &Vec<String>, needle: &str) -> (out: Option<usize>)
    ensures
        match out {
            Some(at) => at < lines@.len() && first_with(texts(lines@), needle@, 0) == at,
            None => first_with(texts(lines@), needle@, 0) == lines@.len(),
        },
{
    let mut i: usize = 0;
    while i < lines.len()
        invariant
            i <= lines@.len(),
            first_with(texts(lines@), needle@, 0) == first_with(texts(lines@), needle@, i as int),
        decreases lines.len() - i,
    {
        if str_contains(lines[i].as_str(), needle) {
            return Some(i);
        }
        i = i + 1;
    }
    None
}

/// The place of the first of the borrowed `lines` in which `needle` stands.
pub fn position_with_str(lines: &Vec<&str>, needle: &str) -> (out: Option<usize>)
    ensures
        match out {
            Some(at) => at < lines@.len() && first_with(str_texts(lines@), needle@, 0) == at,
            None => first_with(str_texts(lines@), needle@, 0) == lines@.len(),
        },
{
    let mut i: usize = 0;
    while i < lines.len()
        invariant
            i <= lines@.len(),
            first_with(str_texts(lines@), needle@, 0) == first_with(
                str_texts(lines@),
                needle@,
                i as int,
            ),
        decreases lines.len() - i,
    {
        if str_contains(lines[i], needle) {
            return Some(i);
        }
        i = i + 1;
    }
    None
}

/// What follows the first `=` of `s`; `None` where `s` has none.
pub open spec fn after_equals(s: Seq<char>) -> Option<Seq<char>> {
    match find_from(s, seq!['='], 0) {
        Some(at) => Some(s.subrange(at + 1, s.len() as int)),
        None => None,
    }
}

/// What follows the first `=` of `s`.
pub fn value_after_equals(s: &Vec<char>) -> (out: Option<Vec<char>>)
    ensures
        out is Some <==> after_equals(s@) is Some,
        out matches Some(v) ==> Some(v@) == after_equals(s@),
{
    let mut sign: Vec<char> = Vec::new();
    sign.push('=');
    assert(sign@ =~= seq!['=']);
    let total = s.len();
    match find(s, &sign, 0) {
        Some(at) => Some(slice(s, at + 1, total)),
        None => None,
    }
}

} // verus!
