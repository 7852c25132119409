//! Decimal numerals, and the passage between strings and their characters.
//!
//! Every contract in this crate that speaks of text does so over `Seq<char>`,
//! the view of `str` and `String`. The executable functions work on
//! `Vec<char>`, where a character is found by its place.

use vstd::prelude::*;
use vstd::string::StringExecFns;

verus! {

/// `c` is one of the ten ASCII digits.
pub open spec fn is_digit(c: char) -> bool {
    '0' <= c && c <= '9'
}

/// The number that the ASCII digit `c` stands for.
pub open spec fn digit_value(c: char) -> nat
    recommends
        is_digit(c),
{
    (c as int - '0' as int) as nat
}

/// The ASCII digit that stands for `d`.
pub open spec fn digit_char(d: nat) -> char
    recommends
        d < 10,
{
    (d + '0' as nat) as char
}

/// Every character of `s` is an ASCII digit.
pub open spec fn all_digits(s: Seq<char>) -> bool {
    forall|i: int| 0 <= i < s.len() ==> is_digit(#[trigger] s[i])
}

/// The shortest decimal numeral of `n`.
pub open spec fn decimal(n: nat) -> Seq<char>
    decreases n,
{
    if n < 10 {
        seq![digit_char(n)]
    } else {
        decimal(n / 10).push(digit_char(n % 10))
    }
}

/// The number that the decimal numeral `s` denotes; the empty numeral denotes 0.
pub open spec fn digits_value(s: Seq<char>) -> nat
    decreases s.len(),
{
    if s.len() == 0 {
        0
    } else {
        digits_value(s.drop_last()) * 10 + digit_value(s.last())
    }
}

/// A numeral is never empty, consists of digits only, and starts with `0`
/// only when it is the numeral of zero.
pub proof fn lemma_decimal_shape(n: nat)
    ensures
        decimal(n).len() >= 1,
        all_digits(decimal(n)),
        n > 0 ==> decimal(n)[0] != '0',
        n == 0 ==> decimal(n) == seq!['0'],
    decreases n,
{
    if n >= 10 {
        lemma_decimal_shape(n / 10);
        let d = decimal(n / 10);
        assert(decimal(n) == d.push(digit_char(n % 10)));
        assert forall|i: int| 0 <= i < decimal(n).len() implies is_digit(
            #[trigger] decimal(n)[i],
        ) by {
            if i < d.len() {
                assert(decimal(n)[i] == d[i]);
            }
        }
        assert(decimal(n)[0] == d[0]);
    }
}

/// Reading a numeral gives back the number it was written from.
pub proof fn lemma_decimal_round_trip(n: nat)
    ensures
        digits_value(decimal(n)) == n,
    decreases n,
{
    if n < 10 {
        lemma_single_digit(decimal(n));
    } else {
        lemma_decimal_round_trip(n / 10);
        let d = decimal(n / 10);
        let s = d.push(digit_char(n % 10));
        assert(s.drop_last() =~= d);
        assert(s.last() == digit_char(n % 10));
    }
}

/// A numeral of one digit denotes that digit.
pub proof fn lemma_single_digit(s: Seq<char>)
    requires
        s.len() == 1,
    ensures
        digits_value(s) == digit_value(s[0]),
{
    reveal_with_fuel(digits_value, 2);
    assert(s.drop_last() =~= Seq::<char>::empty());
}

/// Writing down the value of a numeral without a leading zero gives the
/// numeral back.
pub proof fn lemma_digits_round_trip(s: Seq<char>)
    requires
        s.len() >= 1,
        all_digits(s),
        s.len() > 1 ==> s[0] != '0',
    ensures
        decimal(digits_value(s)) == s,
    decreases s.len(),
{
    let last = s.last();
    assert(is_digit(last));
    if s.len() == 1 {
        lemma_single_digit(s);
        assert(decimal(digits_value(s)) =~= s);
    } else {
        let init = s.drop_last();
        assert(init[0] == s[0]);
        assert forall|i: int| 0 <= i < init.len() implies is_digit(#[trigger] init[i]) by {
            assert(init[i] == s[i]);
        }
        if init.len() > 1 {
            lemma_digits_round_trip(init);
        } else {
            assert(is_digit(init[0]));
            lemma_single_digit(init);
            assert(decimal(digits_value(init)) =~= init);
        }
        lemma_leading_digit_bounds(init);
        let v = digits_value(init);
        assert(v >= 1);
        let n = v * 10 + digit_value(last);
        assert(n / 10 == v && n % 10 == digit_value(last));
        assert(decimal(n) == decimal(v).push(digit_char(digit_value(last))));
        assert(decimal(n) =~= s);
    }
}

/// A numeral whose first digit is not `0` denotes a positive number.
pub proof fn lemma_leading_digit_bounds(s: Seq<char>)
    requires
        s.len() >= 1,
        is_digit(s[0]),
        s[0] != '0',
    ensures
        digits_value(s) >= 1,
    decreases s.len(),
{
    if s.len() == 1 {
        lemma_single_digit(s);
    } else {
        assert(s.drop_last()[0] == s[0]);
        lemma_leading_digit_bounds(s.drop_last());
    }
}

/// A numeral denotes at least as much as each of its prefixes.
pub proof fn lemma_digits_value_prefix(s: Seq<char>, k: int)
    requires
        0 <= k <= s.len(),
    ensures
        digits_value(s.take(k)) <= digits_value(s),
    decreases s.len() - k,
{
    if k == s.len() {
        assert(s.take(k) =~= s);
    } else {
        lemma_digits_value_prefix(s, k + 1);
        let longer = s.take(k + 1);
        assert(longer.drop_last() =~= s.take(k));
    }
}

/// The value of the digit `c`.
pub fn digit_of(c: char) -> (d: u8)
    requires
        is_digit(c),
    ensures
        d as nat == digit_value(c),
        d < 10,
{
    (c as u32 - '0' as u32) as u8
}

/// Whether `c` is an ASCII digit.
pub fn is_digit_char(c: char) -> (b: bool)
    ensures
        b == is_digit(c),
{
    '0' <= c && c <= '9'
}

/// The characters of `s`, in order.
pub fn chars_of(s: &str) -> (out: Vec<char>)
    ensures
        out@ == s@,
{
    let mut out: Vec<char> = Vec::new();
    for c in it: s.chars()
        invariant
            out@ == it.seq().take(it.index()),
            it.seq() == s@,
    {
        out.push(c);
    }
    out
}

/// Appends one character with `String::push`: afterwards the string holds
/// what it held, followed by `c`.
#[verifier::external_body]
pub(crate) fn push_char(s: &mut String, c: char)
    ensures
        final(s)@ == old(s)@.push(c),
{
    s.push(c)
}

/// The string of the characters of `chars`, in order.
pub fn string_of(chars: &Vec<char>) -> (out: String)
    ensures
        out@ == chars@,
{
    let mut out = String::new();
    let mut i: usize = 0;
    while i < chars.len()
        invariant
            i <= chars@.len(),
            out@ == chars@.take(i as int),
        decreases chars.len() - i,
    {
        push_char(&mut out, chars[i]);
        assert(chars@.take(i + 1) =~= chars@.take(i as int).push(chars@[i as int]));
        i = i + 1;
    }
    assert(chars@.take(chars@.len() as int) =~= chars@);
    out
}

/// Appends the decimal numeral of `n` to `out`.
pub fn push_decimal(out: &mut Vec<char>, n: u64)
    ensures
        final(out)@ == old(out)@ + decimal(n as nat),
    decreases n,
{
    if n >= 10 {
        push_decimal(out, n / 10);
    }
    let d: u8 = (n % 10) as u8;
    let c: char = (d + 48u8) as char;
    assert(c == digit_char((n % 10) as nat));
    out.push(c);
    proof {
        if n >= 10 {
            assert(old(out)@ + decimal(n as nat) =~= (old(out)@ + decimal((n / 10) as nat)).push(c));
        } else {
            assert(old(out)@ + decimal(n as nat) =~= old(out)@.push(c));
        }
    }
}

/// The decimal numeral of `n`.
pub fn decimal_string(n: u64) -> (out: String)
    ensures
        out@ == decimal(n as nat),
{
    let mut buf: Vec<char> = Vec::new();
    push_decimal(&mut buf, n);
    assert(Seq::<char>::empty() + decimal(n as nat) =~= decimal(n as nat));
    string_of(&buf)
}

/// Appends the characters of `s` to `out`.
pub fn push_str(out: &mut Vec<char>, s: &str)
    ensures
        final(out)@ == old(out)@ + s@,
{
    let ghost before = out@;
    for c in it: s.chars()
        invariant
            out@ == before + it.seq().take(it.index()),
            it.seq() == s@,
    {
        proof {
            let k = it.index();
            assert(it.seq().take(k + 1) =~= it.seq().take(k).push(c));
            assert(before + it.seq().take(k + 1) =~= (before + it.seq().take(k)).push(c));
        }
        out.push(c);
    }
    proof {
        assert(s@.take(s@.len() as int) =~= s@);
    }
}

/// Reads `s[from..to]` as a decimal numeral. The result is `Some` exactly
/// when the range is non-empty, holds digits only and denotes a number that
/// fits in `u64`.
pub fn parse_decimal(s: &Vec<char>, from: usize, to: usize) -> (out: Option<u64>)
    requires
        from <= to <= s.len(),
    ensures
        out is Some <==> from < to && all_digits(s@.subrange(from as int, to as int))
            && digits_value(s@.subrange(from as int, to as int)) <= u64::MAX,
        out is Some ==> out.unwrap() as nat == digits_value(s@.subrange(from as int, to as int)),
{
    let ghost range = s@.subrange(from as int, to as int);
    if from == to {
        return None;
    }
    let mut acc: u64 = 0;
    let mut i: usize = from;
    while i < to
        invariant
            from <= i <= to <= s.len(),
            range == s@.subrange(from as int, to as int),
            all_digits(range.take(i - from)),
            acc as nat == digits_value(range.take(i - from)),
        decreases to - i,
    {
        let c = s[i];
        let ghost seen = range.take(i - from);
        let ghost next = range.take(i - from + 1);
        proof {
            assert(range[i - from] == c);
            assert(next.drop_last() =~= seen);
            assert(next.last() == c);
        }
        if !is_digit_char(c) {
            proof {
                assert(!is_digit(range[i - from]));
            }
            return None;
        }
        let d: u64 = digit_of(c) as u64;
        if acc > (u64::MAX - d) / 10 {
            proof {
                assert(digits_value(next) == acc * 10 + d);
                assert(digits_value(next) > u64::MAX);
                lemma_digits_value_prefix(range, i - from + 1);
            }
            return None;
        }
        proof {
            assert forall|j: int| 0 <= j < next.len() implies is_digit(#[trigger] next[j]) by {
                if j < seen.len() {
                    assert(next[j] == seen[j]);
                }
            }
        }
        acc = acc * 10 + d;
        i = i + 1;
    }
    proof {
        assert(range.take(to - from) =~= range);
    }
    Some(acc)
}

/// Whether two texts hold the same characters.
pub fn str_equal(a: &str, b: &str) -> (out: bool)
    ensures
        out == (a@ == b@),
{
    let left = String::from_str(a);
    let right = String::from_str(b);
    left == right
}

/// The name under which the wrapper `lowercase` hands back the result of
/// `str::to_lowercase`: the Unicode lower-case mapping of a text.
pub uninterp spec fn lowercase_of(s: Seq<char>) -> Seq<char>;

/// Lower-cases `s` with `str::to_lowercase`. The result is a function of the
/// text alone and is known to contracts as `lowercase_of`.
#[verifier::external_body]
pub(crate) fn lowercase(s: &str) -> (out: String)
    ensures
        out@ == lowercase_of(s@),
{
    s.to_lowercase()
}

/// The name under which the wrapper `utf8_lossy` hands back the result of
/// `String::from_utf8_lossy`: the text of some bytes, with the replacement
/// character in place of what is no UTF-8.
pub uninterp spec fn utf8_lossy_of(bytes: Seq<u8>) -> Seq<char>;

/// Reads bytes as text with `String::from_utf8_lossy`. The result is a
/// function of the bytes alone and is known to contracts as
/// `utf8_lossy_of`.
#[verifier::external_body]
pub(crate) fn utf8_lossy(bytes: &[u8]) -> (out: String)
    ensures
        out@ == utf8_lossy_of(bytes@),
{
    String::from_utf8_lossy(bytes).into_owned()
}

/// What `digits_in` keeps are digits.
pub proof fn lemma_digits_in_are_digits(s: Seq<char>)
    ensures
        all_digits(crate::scan::digits_in(s)),
    decreases s.len(),
{
    if s.len() > 0 {
        lemma_digits_in_are_digits(s.drop_last());
        let kept = crate::scan::digits_in(s);
        let before = crate::scan::digits_in(s.drop_last());
        assert forall|i: int| 0 <= i < kept.len() implies is_digit(#[trigger] kept[i]) by {
            if i < before.len() {
                assert(kept[i] == before[i]);
            }
        }
    }
}

/// What a text of an optional `+` and decimal digits denotes; `None` for
/// every other text, the empty one and a lone `+` among them.
pub open spec fn unsigned_value(s: Seq<char>) -> Option<nat> {
    let digits = if s.len() > 0 && s[0] == '+' {
        s.subrange(1, s.len() as int)
    } else {
        s
    };
    if digits.len() > 0 && all_digits(digits) {
        Some(digits_value(digits))
    } else {
        None
    }
}

/// Reads an unsigned number: an optional `+`, then decimal digits. The
/// result is `Some` exactly when the text has that form and the number is
/// at most `limit`.
pub fn parse_unsigned(s: &Vec<char>, limit: u64) -> (out: Option<u64>)
    ensures
        out is Some <==> unsigned_value(s@) is Some && unsigned_value(s@).unwrap() <= limit,
        out matches Some(v) ==> unsigned_value(s@) == Some(v as nat),
{
    let from: usize = if s.len() > 0 && s[0] == '+' {
        1
    } else {
        0
    };
    assert(s@.subrange(0, s@.len() as int) =~= s@);
    match parse_decimal(s, from, s.len()) {
        Some(v) => {
            if v <= limit {
                Some(v)
            } else {
                None
            }
        },
        None => None,
    }
}

} // verus!
