//! The naming rules of the wallpaper store, and what a clean-up removes.
//!
//! A saved wallpaper is called `<prefix>_<unix-seconds>.png`. The store
//! itself is a directory that the program reads and writes; the functions
//! here decide names and removals from plain values.

use crate::cli::Generator;
use crate::configuration::{token_seconds, Frequency};
use crate::text::{
    all_digits, chars_of, decimal, digits_value, is_digit, is_digit_char,
    lemma_decimal_round_trip, lemma_decimal_shape, parse_decimal, push_decimal, push_str,
    string_of,
};
use vstd::prelude::*;

verus! {

/// The extension of a saved wallpaper.
pub open spec fn png_suffix() -> Seq<char> {
    seq!['.', 'p', 'n', 'g']
}

/// `name` reads `<anything>_<digits>.png`, with the underscore at `cut` and
/// at least one digit.
pub open spec fn is_wallpaper_name(name: Seq<char>, cut: int) -> bool {
    &&& 0 <= cut
    &&& cut + 1 < name.len() - 4
    &&& name[cut] == '_'
    &&& all_digits(name.subrange(cut + 1, name.len() - 4))
    &&& name.subrange(name.len() - 4, name.len() as int) == png_suffix()
}

/// The place of the underscore in front of the timestamp.
pub open spec fn timestamp_cut(name: Seq<char>) -> int {
    choose|cut: int| is_wallpaper_name(name, cut)
}

/// The timestamp in the name of a saved wallpaper; `None` for a name of
/// another form.
pub open spec fn captured_timestamp(name: Seq<char>) -> Option<nat> {
    if exists|cut: int| is_wallpaper_name(name, cut) {
        Some(digits_value(name.subrange(timestamp_cut(name) + 1, name.len() - 4)))
    } else {
        None
    }
}

/// A name has at most one place for the underscore.
pub proof fn lemma_cut_unique(name: Seq<char>, a: int, b: int)
    requires
        is_wallpaper_name(name, a),
        is_wallpaper_name(name, b),
    ensures
        a == b,
        timestamp_cut(name) == a,
{
    let end = name.len() - 4;
    if a < b {
        assert(name.subrange(a + 1, end)[b - a - 1] == name[b]);
        assert(is_digit(name[b]));
    }
    if b < a {
        assert(name.subrange(b + 1, end)[a - b - 1] == name[a]);
        assert(is_digit(name[a]));
    }
    let c = timestamp_cut(name);
    if a < c {
        assert(name.subrange(a + 1, end)[c - a - 1] == name[c]);
        assert(is_digit(name[c]));
    }
    if c < a {
        assert(name.subrange(c + 1, end)[a - c - 1] == name[a]);
        assert(is_digit(name[a]));
    }
}

/// The name under which a wallpaper made at `unix_seconds` is saved.
pub open spec fn file_name(prefix: Seq<char>, unix_seconds: nat) -> Seq<char> {
    prefix + seq!['_'] + decimal(unix_seconds) + png_suffix()
}

/// The name of a saved wallpaper holds the time at which it was made,
/// whatever stands in front of the underscore.
pub proof fn lemma_saved_name_keeps_time(prefix: Seq<char>, unix_seconds: nat)
    ensures
        captured_timestamp(file_name(prefix, unix_seconds)) == Some(unix_seconds),
{
    let name = file_name(prefix, unix_seconds);
    let digits = decimal(unix_seconds);
    let cut = prefix.len() as int;
    lemma_decimal_shape(unix_seconds);
    lemma_decimal_round_trip(unix_seconds);
    assert(name.len() == prefix.len() + 1 + digits.len() + 4);
    assert(name.subrange(cut + 1, name.len() - 4) =~= digits);
    assert(name.subrange(name.len() - 4, name.len() as int) =~= png_suffix());
    assert(name[cut] == '_');
    assert(is_wallpaper_name(name, cut));
    lemma_cut_unique(name, cut, cut);
}

/// Whether a file is removed by a clean-up at time `now` that keeps what is
/// younger than `age` seconds: its name holds a timestamp, and at least
/// `age` seconds have passed since then. Files of other names always stay.
pub open spec fn is_expired(name: Seq<char>, now: nat, age: nat) -> bool {
    match captured_timestamp(name) {
        Some(made) => now - made >= age,
        None => false,
    }
}

/// The name under which `generator`'s wallpaper made at `unix_seconds` is
/// saved.
pub fn wallpaper_file_name(generator: &Generator, unix_seconds: u64) -> (out: String)
    ensures
        out@ == file_name(generator.spec_prefix(), unix_seconds as nat),
        captured_timestamp(out@) == Some(unix_seconds as nat),
{
    let mut buf: Vec<char> = Vec::new();
    push_str(&mut buf, generator.prefix());
    buf.push('_');
    push_decimal(&mut buf, unix_seconds);
    buf.push('.');
    buf.push('p');
    buf.push('n');
    buf.push('g');
    proof {
        lemma_saved_name_keeps_time(generator.spec_prefix(), unix_seconds as nat);
        assert(buf@ =~= file_name(generator.spec_prefix(), unix_seconds as nat));
    }
    string_of(&buf)
}

/// Reads the timestamp out of a file name. The result is `Some` exactly for
/// the names of the form `<anything>_<digits>.png` whose number fits in 64
/// bits.
pub fn read_timestamp(file_name: &str) -> (out: Option<u64>)
    ensures
        out is Some <==> captured_timestamp(file_name@) is Some && captured_timestamp(
            file_name@,
        ).unwrap() <= u64::MAX,
        out matches Some(t) ==> captured_timestamp(file_name@) == Some(t as nat),
{
    let chars = chars_of(file_name);
    let n = chars.len();
    let ghost name = chars@;
    if n < 6 {
        return None;
    }
    let end = n - 4;
    if !(chars[end] == '.' && chars[end + 1] == 'p' && chars[end + 2] == 'n' && chars[end + 3]
        == 'g') {
        proof {
            assert forall|cut: int| !is_wallpaper_name(name, cut) by {
                let tail = name.subrange(name.len() - 4, name.len() as int);
                assert(tail[0] == name[end as int] && tail[1] == name[end + 1] && tail[2]
                    == name[end + 2] && tail[3] == name[end + 3]);
            }
        }
        return None;
    }
    assert(name.subrange(name.len() - 4, name.len() as int) =~= png_suffix());
    // walk back over the digits in front of the extension
    let mut start: usize = end;
    while start > 0 && is_digit_char(chars[start - 1])
        invariant
            start <= end,
            end == n - 4,
            n == chars.len(),
            name == chars@,
            all_digits(name.subrange(start as int, end as int)),
        decreases start,
    {
        proof {
            let longer = name.subrange(start - 1, end as int);
            let shorter = name.subrange(start as int, end as int);
            assert forall|i: int| 0 <= i < longer.len() implies is_digit(#[trigger] longer[i]) by {
                if i > 0 {
                    assert(longer[i] == shorter[i - 1]);
                }
            }
        }
        start = start - 1;
    }
    if start == end || start == 0 || chars[start - 1] != '_' {
        proof {
            assert forall|cut: int| !is_wallpaper_name(name, cut) by {
                if is_wallpaper_name(name, cut) {
                    let digits = name.subrange(cut + 1, end as int);
                    if cut + 1 < start {
                        // the character in front of the run would be a digit
                        assert(digits[start - 1 - (cut + 1)] == name[start - 1]);
                        assert(is_digit(name[start - 1]));
                    } else if cut + 1 > start {
                        assert(name.subrange(start as int, end as int)[cut - start] == name[cut]);
                        assert(is_digit(name[cut]));
                    }
                }
            }
        }
        return None;
    }
    proof {
        assert(is_wallpaper_name(name, start - 1));
        lemma_cut_unique(name, start - 1, start - 1);
    }
    parse_decimal(&chars, start, end)
}

/// Whether the file called `file_name` is removed by a clean-up at time
/// `now` for the age `older_than`.
pub fn should_delete(file_name: &str, now: u64, older_than: &Frequency) -> (out: bool)
    ensures
        out == is_expired(file_name@, now as nat, token_seconds(older_than@)),
{
    let age = older_than.checked_seconds();
    let made = read_timestamp(file_name);
    match (made, age) {
        (Some(made), Some(age)) => made <= now && now - made >= age,
        _ => false,
    }
}

/// For each of `file_names`, whether a clean-up at time `now` removes it:
/// exactly the files whose names hold a timestamp at least `older_than`
/// back are removed, and all others stay.
pub fn delete_older_than(file_names: &Vec<String>, now: u64, older_than: &Frequency) -> (out: Vec<
    bool,
>)
    ensures
        out@.len() == file_names@.len(),
        forall|i: int|
            0 <= i < file_names@.len() ==> #[trigger] out@[i] == is_expired(
                file_names@[i]@,
                now as nat,
                token_seconds(older_than@),
            ),
{
    let mut out: Vec<bool> = Vec::new();
    let mut i: usize = 0;
    while i < file_names.len()
        invariant
            i <= file_names.len(),
            out@.len() == i,
            forall|j: int|
                0 <= j < i ==> #[trigger] out@[j] == is_expired(
                    file_names@[j]@,
                    now as nat,
                    token_seconds(older_than@),
                ),
        decreases file_names.len() - i,
    {
        out.push(should_delete(file_names[i].as_str(), now, older_than));
        i = i + 1;
    }
    out
}

/// What a clean-up does to the store.
#[derive(Debug, PartialEq, Eq, Clone, Copy, Structural)]
pub enum CleanAction {
    /// Remove the directory and all that is in it.
    RemoveDirectory,
    /// Remove all files and keep an empty directory.
    EmptyDirectory,
    /// Remove the wallpapers that are old enough.
    RemoveExpired,
    /// Leave the store as it is.
    Nothing,
}

/// What a clean-up with the given options does.
pub open spec fn clean_action(delete_all: bool, delete_dir: bool, has_age: bool) -> CleanAction {
    if delete_all {
        if delete_dir {
            CleanAction::RemoveDirectory
        } else {
            CleanAction::EmptyDirectory
        }
    } else if has_age {
        CleanAction::RemoveExpired
    } else if delete_dir {
        CleanAction::RemoveDirectory
    } else {
        CleanAction::Nothing
    }
}

/// Decides what a clean-up does: everything goes when `delete_all` is set,
/// with the directory itself when `delete_dir` is; otherwise an age limits
/// the removal to the wallpapers that are at least that old.
pub fn delete_wallpapers(delete_all: bool, delete_dir: bool, older_than: Option<&Frequency>) -> (out:
    CleanAction)
    ensures
        out == clean_action(delete_all, delete_dir, older_than is Some),
{
    if delete_all {
        if delete_dir {
            CleanAction::RemoveDirectory
        } else {
            CleanAction::EmptyDirectory
        }
    } else if older_than.is_some() {
        CleanAction::RemoveExpired
    } else if delete_dir {
        CleanAction::RemoveDirectory
    } else {
        CleanAction::Nothing
    }
}

/// What is done with a generated image.
#[derive(Debug, PartialEq, Eq, Clone, Copy, Structural)]
pub struct GenerateActions {
    /// The image is written to the store.
    pub save: bool,
    /// The saved image becomes the wallpaper.
    pub update: bool,
}

/// Decides what is done with a generated image. The wallpaper is updated
/// unless `no_update` is set, and an update needs the image saved; without
/// an update the image is saved unless `no_save` is set.
pub fn handle_generate_options(no_save: bool, no_update: bool) -> (out: GenerateActions)
    ensures
        out.update == !no_update,
        out.save == (!no_update || !no_save),
{
    GenerateActions { save: !no_update || !no_save, update: !no_update }
}

} // verus!
