//! Frequency expressions such as `30m` or `1w`, and their conversion into
//! seconds, systemd calendar events and Task Scheduler modifiers.

use super::config::ConfigError;
use crate::text::{
    all_digits, chars_of, decimal, digits_value, is_digit, is_digit_char,
    lemma_digits_round_trip, lemma_leading_digit_bounds, parse_decimal, push_decimal, push_str, string_of,
};
use vstd::prelude::*;
use vstd::string::StringExecFns;

verus! {

/// The schedule types that `schtasks /create /sc` knows.
#[allow(clippy::upper_case_acronyms)]
#[derive(Debug, PartialEq, Eq, Clone, Copy, Structural)]
pub enum ScheduleType {
    MINUTE,
    HOURLY,
    DAILY,
    WEEKLY,
    MONTHLY,
}

impl ScheduleType {
    /// The word that `schtasks` expects for this schedule type.
    pub open spec fn name(self) -> Seq<char> {
        match self {
            ScheduleType::MINUTE => "MINUTE"@,
            ScheduleType::HOURLY => "HOURLY"@,
            ScheduleType::DAILY => "DAILY"@,
            ScheduleType::WEEKLY => "WEEKLY"@,
            ScheduleType::MONTHLY => "MONTHLY"@,
        }
    }

    /// Renders the schedule type as `schtasks` expects it.
    pub fn to_string(&self) -> (out: String)
        ensures
            out@ == self.name(),
    {
        match self {
            ScheduleType::MINUTE => String::from_str("MINUTE"),
            ScheduleType::HOURLY => String::from_str("HOURLY"),
            ScheduleType::DAILY => String::from_str("DAILY"),
            ScheduleType::WEEKLY => String::from_str("WEEKLY"),
            ScheduleType::MONTHLY => String::from_str("MONTHLY"),
        }
    }
}

/// `c` is one of the seven unit letters. `m` is minutes, `M` is months.
pub open spec fn is_unit(c: char) -> bool {
    c == 's' || c == 'm' || c == 'h' || c == 'd' || c == 'w' || c == 'M' || c == 'y'
}

/// The length of the unit `c` in seconds; a month is 30 days, a year 365.
pub open spec fn unit_seconds(c: char) -> nat {
    if c == 's' {
        1
    } else if c == 'm' {
        60
    } else if c == 'h' {
        3600
    } else if c == 'd' {
        86400
    } else if c == 'w' {
        604800
    } else if c == 'M' {
        2592000
    } else if c == 'y' {
        31536000
    } else {
        0
    }
}

/// The grammar of a frequency: a decimal numeral that does not start with
/// `0`, followed by exactly one unit letter.
pub open spec fn is_token(s: Seq<char>) -> bool {
    &&& s.len() >= 2
    &&& all_digits(s.drop_last())
    &&& s[0] != '0'
    &&& is_unit(s.last())
}

/// The number in front of the unit.
pub open spec fn token_number(s: Seq<char>) -> nat {
    digits_value(s.drop_last())
}

/// The unit letter.
pub open spec fn token_unit(s: Seq<char>) -> char {
    s.last()
}

/// The duration that the token denotes, in seconds.
pub open spec fn token_seconds(s: Seq<char>) -> nat {
    token_number(s) * unit_seconds(token_unit(s))
}

/// Why a string is not a frequency.
#[derive(Debug, PartialEq, Eq, Clone, Copy, Structural)]
pub enum TokenFault {
    /// The string does not begin with a digit.
    MissingNumber,
    /// The number is zero.
    ZeroNumber,
    /// The number is written with a leading zero.
    LeadingZero,
    /// The character after the number is no unit letter.
    UnknownUnit,
    /// Nothing follows the number.
    MissingUnit,
    /// Something follows the unit letter.
    TrailingInput,
}

/// How many digits `s` begins with.
pub open spec fn digit_run(s: Seq<char>) -> nat
    decreases s.len(),
{
    if s.len() > 0 && is_digit(s[0]) {
        1 + digit_run(s.drop_first())
    } else {
        0
    }
}

/// Every character of `s` is the digit `0`.
pub open spec fn all_zeros(s: Seq<char>) -> bool {
    forall|i: int| 0 <= i < s.len() ==> #[trigger] s[i] == '0'
}

/// The first fault found when `s` is read from left to right: digits, then
/// one unit letter, then the end. `None` when there is none.
pub open spec fn token_fault(s: Seq<char>) -> Option<TokenFault> {
    let run = digit_run(s) as int;
    if run == 0 {
        Some(TokenFault::MissingNumber)
    } else if run == s.len() {
        Some(TokenFault::MissingUnit)
    } else if all_zeros(s.take(run)) {
        Some(TokenFault::ZeroNumber)
    } else if s[0] == '0' {
        Some(TokenFault::LeadingZero)
    } else if !is_unit(s[run]) {
        Some(TokenFault::UnknownUnit)
    } else if run + 1 < s.len() {
        Some(TokenFault::TrailingInput)
    } else {
        None
    }
}

/// The reason given to the user for each fault.
pub open spec fn fault_message(fault: TokenFault) -> Seq<char> {
    match fault {
        TokenFault::MissingNumber => "frequency must start with a number"@,
        TokenFault::ZeroNumber => "frequency number can't be 0"@,
        TokenFault::LeadingZero => "frequency number can't start with 0"@,
        TokenFault::UnknownUnit =>
            "unrecognized frequency unit, supported units are: seconds(s), minutes(m), hours(h), days(d), weeks(w), months(M), years(y)"@,
        TokenFault::MissingUnit =>
            "frequency must end with unit - examples are: s, m, h, d, w, M, y"@,
        TokenFault::TrailingInput =>
            "frequency is improperly formatted - example of frequency: 1w"@,
    }
}

/// `digit_run` is the index of the first character that is no digit.
pub proof fn lemma_digit_run(s: Seq<char>, k: int)
    requires
        0 <= k <= s.len(),
        all_digits(s.take(k)),
        k == s.len() || !is_digit(s[k]),
    ensures
        digit_run(s) == k,
    decreases k,
{
    if k > 0 {
        assert(s.take(k)[0] == s[0]);
        let rest = s.drop_first();
        assert forall|i: int| 0 <= i < k - 1 implies is_digit(#[trigger] rest.take(k - 1)[i]) by {
            assert(rest.take(k - 1)[i] == s.take(k)[i + 1]);
        }
        lemma_digit_run(rest, k - 1);
    }
}

/// The digits that `digit_run` counts are digits, and the run ends at the
/// end of `s` or at a character that is none.
pub proof fn lemma_digit_run_shape(s: Seq<char>)
    ensures
        digit_run(s) <= s.len(),
        all_digits(s.take(digit_run(s) as int)),
        digit_run(s) == s.len() || !is_digit(s[digit_run(s) as int]),
    decreases s.len(),
{
    if s.len() > 0 && is_digit(s[0]) {
        let rest = s.drop_first();
        lemma_digit_run_shape(rest);
        let k = digit_run(rest) as int;
        assert forall|i: int| 0 <= i < k + 1 implies is_digit(#[trigger] s.take(k + 1)[i]) by {
            if i > 0 {
                assert(s.take(k + 1)[i] == rest.take(k)[i - 1]);
            }
        }
        if k < rest.len() {
            assert(s[k + 1] == rest[k]);
        }
    }
}

/// A string is a frequency exactly when reading it finds no fault.
pub proof fn lemma_fault_free_tokens(s: Seq<char>)
    ensures
        token_fault(s) is None <==> is_token(s),
{
    lemma_digit_run_shape(s);
    let run = digit_run(s) as int;
    if is_token(s) {
        let digits = s.drop_last();
        assert(digits =~= s.take(s.len() - 1));
        assert(!is_digit(s[s.len() - 1]));
        lemma_digit_run(s, s.len() - 1);
        assert(s.take(run)[0] == s[0]);
    } else if token_fault(s) is None {
        assert(run + 1 == s.len());
        assert(s.drop_last() =~= s.take(run));
    }
}

/// The six strings `0d`, the empty string, `d`, `100`, `1K` and `1d1d` are
/// no frequencies, each for its own reason.
pub proof fn lemma_rejected_examples()
    ensures
        token_fault("0d"@) == Some(TokenFault::ZeroNumber),
        token_fault(""@) == Some(TokenFault::MissingNumber),
        token_fault("d"@) == Some(TokenFault::MissingNumber),
        token_fault("100"@) == Some(TokenFault::MissingUnit),
        token_fault("1K"@) == Some(TokenFault::UnknownUnit),
        token_fault("1d1d"@) == Some(TokenFault::TrailingInput),
{
    reveal_strlit("0d");
    reveal_strlit("");
    reveal_strlit("d");
    reveal_strlit("100");
    reveal_strlit("1K");
    reveal_strlit("1d1d");
    assert("0d"@.take(1) =~= seq!['0']);
    lemma_digit_run("0d"@, 1);
    lemma_digit_run(""@, 0);
    lemma_digit_run("d"@, 0);
    assert("100"@.take(3) =~= seq!['1', '0', '0']);
    lemma_digit_run("100"@, 3);
    assert("1K"@.take(1) =~= seq!['1']);
    lemma_digit_run("1K"@, 1);
    assert("1d1d"@.take(1) =~= seq!['1']);
    lemma_digit_run("1d1d"@, 1);
    assert(!all_zeros("1K"@.take(1))) by {
        assert("1K"@.take(1)[0] == '1');
    }
    assert(!all_zeros("1d1d"@.take(1))) by {
        assert("1d1d"@.take(1)[0] == '1');
    }
}

/// The seconds of a frequency are its number times the length of its unit.
pub proof fn lemma_seconds_formula(s: Seq<char>)
    requires
        is_token(s),
    ensures
        token_seconds(s) == digits_value(s.drop_last()) * unit_seconds(s.last()),
        token_seconds(s) >= token_number(s) >= 1,
        s.last() == 's' ==> token_seconds(s) == token_number(s),
        s.last() == 'm' ==> token_seconds(s) == token_number(s) * 60,
        s.last() == 'h' ==> token_seconds(s) == token_number(s) * 3600,
        s.last() == 'd' ==> token_seconds(s) == token_number(s) * 86400,
        s.last() == 'w' ==> token_seconds(s) == token_number(s) * 604800,
        s.last() == 'M' ==> token_seconds(s) == token_number(s) * 2592000,
        s.last() == 'y' ==> token_seconds(s) == token_number(s) * 31536000,
{
    let digits = s.drop_last();
    assert(digits[0] == s[0]);
    lemma_leading_digit_bounds(digits);
    let n = token_number(s);
    let u = unit_seconds(s.last());
    assert(u >= 1);
    assert(n * u >= n) by (nonlinear_arith)
        requires
            n >= 1,
            u >= 1,
    ;
}

/// The systemd calendar event that fires every `seconds` seconds, as nearly
/// as the calendar syntax allows.
pub open spec fn on_calendar(seconds: nat) -> Seq<char> {
    if seconds < 60 {
        "*-*-* *:*:0/"@ + decimal(if seconds < 1 { 1 } else { seconds })
    } else if seconds < 3600 {
        "*-*-* *:0/"@ + decimal(seconds / 60)
    } else if seconds < 86400 {
        "*-*-* 0/"@ + decimal(seconds / 3600) + ":00:00"@
    } else if seconds < 604800 {
        "*-*-*/"@ + decimal(seconds / 86400) + " 00:00:00"@
    } else if seconds < 2592000 {
        if seconds / 604800 == 1 {
            "weekly"@
        } else {
            "*-*-*/"@ + decimal((seconds / 604800) * 7) + " 00:00:00"@
        }
    } else if seconds < 31536000 {
        if seconds / 2592000 == 1 {
            "monthly"@
        } else {
            "*-*-*/"@ + decimal((seconds / 2592000) * 30) + " 00:00:00"@
        }
    } else {
        "yearly"@
    }
}

/// A number of days as a Task Scheduler modifier: daily up to 365 days,
/// beyond that once every twelve months.
pub open spec fn day_components(days: nat) -> (nat, ScheduleType) {
    if days < 366 {
        (days, ScheduleType::DAILY)
    } else {
        (12, ScheduleType::MONTHLY)
    }
}

/// The Task Scheduler modifier and schedule type for `number` units of
/// `unit`. A modifier stays within what `schtasks` accepts for its type
/// (1439 minutes, 23 hours, 365 days, 52 weeks, 12 months); where it would
/// not, the interval is restated in whole days, and beyond a year it is once
/// every twelve months. Less than a minute becomes one minute.
pub open spec fn task_components(number: nat, unit: char) -> (nat, ScheduleType) {
    if unit == 's' {
        if number < 60 {
            (1, ScheduleType::MINUTE)
        } else if number / 60 < 1440 {
            (number / 60, ScheduleType::MINUTE)
        } else {
            day_components(number / 86400)
        }
    } else if unit == 'm' {
        if number < 1440 {
            (number, ScheduleType::MINUTE)
        } else {
            day_components(number / 1440)
        }
    } else if unit == 'h' {
        if number < 24 {
            (number, ScheduleType::HOURLY)
        } else {
            day_components(number / 24)
        }
    } else if unit == 'd' {
        day_components(number)
    } else if unit == 'w' {
        if number < 53 {
            (number, ScheduleType::WEEKLY)
        } else {
            (12, ScheduleType::MONTHLY)
        }
    } else if unit == 'M' {
        if number < 13 {
            (number, ScheduleType::MONTHLY)
        } else {
            (12, ScheduleType::MONTHLY)
        }
    } else {
        (12, ScheduleType::MONTHLY)
    }
}

/// A validated frequency expression. It keeps the text it was made from.
#[derive(Debug, PartialEq)]
pub struct Frequency(String);

impl View for Frequency {
    type V = Seq<char>;

    /// The expression as written.
    closed spec fn view(&self) -> Seq<char> {
        self.0@
    }
}

/// A frequency is the decimal numeral of its number followed by its unit
/// letter: writing the two down again gives the expression as it was.
pub proof fn lemma_token_round_trip(s: Seq<char>)
    requires
        is_token(s),
    ensures
        decimal(token_number(s)).push(token_unit(s)) == s,
{
    let digits = s.drop_last();
    assert(digits[0] == s[0]);
    lemma_digits_round_trip(digits);
    assert(digits.push(s.last()) =~= s);
}

fn is_unit_char(c: char) -> (b: bool)
    ensures
        b == is_unit(c),
{
    c == 's' || c == 'm' || c == 'h' || c == 'd' || c == 'w' || c == 'M' || c == 'y'
}

fn unit_multiplier(c: char) -> (m: u64)
    ensures
        m as nat == unit_seconds(c),
{
    if c == 's' {
        1
    } else if c == 'm' {
        60
    } else if c == 'h' {
        3600
    } else if c == 'd' {
        86400
    } else if c == 'w' {
        604800
    } else if c == 'M' {
        2592000
    } else if c == 'y' {
        31536000
    } else {
        0
    }
}

fn fault_text(fault: TokenFault) -> (out: String)
    ensures
        out@ == fault_message(fault),
{
    match fault {
        TokenFault::MissingNumber => String::from_str("frequency must start with a number"),
        TokenFault::ZeroNumber => String::from_str("frequency number can't be 0"),
        TokenFault::LeadingZero => String::from_str("frequency number can't start with 0"),
        TokenFault::UnknownUnit => String::from_str(
            "unrecognized frequency unit, supported units are: seconds(s), minutes(m), hours(h), days(d), weeks(w), months(M), years(y)",
        ),
        TokenFault::MissingUnit => String::from_str(
            "frequency must end with unit - examples are: s, m, h, d, w, M, y",
        ),
        TokenFault::TrailingInput => String::from_str(
            "frequency is improperly formatted - example of frequency: 1w",
        ),
    }
}

/// Reads `chars` from left to right and reports the first fault.
fn find_fault(chars: &Vec<char>) -> (out: Option<TokenFault>)
    ensures
        out == token_fault(chars@),
{
    let n = chars.len();
    let mut run: usize = 0;
    let mut zeros: bool = true;
    while run < n && is_digit_char(chars[run])
        invariant
            run <= n == chars.len(),
            all_digits(chars@.take(run as int)),
            zeros == all_zeros(chars@.take(run as int)),
        decreases n - run,
    {
        proof {
            let seen = chars@.take(run as int);
            let next = chars@.take(run + 1);
            assert(next[run as int] == chars[run as int]);
            assert forall|i: int| 0 <= i < next.len() implies is_digit(#[trigger] next[i]) by {
                if i < run {
                    assert(next[i] == seen[i]);
                }
            }
            if zeros && chars[run as int] == '0' {
                assert forall|i: int| 0 <= i < next.len() implies #[trigger] next[i] == '0' by {
                    if i < run {
                        assert(next[i] == seen[i]);
                    }
                }
            } else if zeros {
                assert(next[run as int] != '0');
            } else {
                let w = choose|i: int| 0 <= i < seen.len() && seen[i] != '0';
                assert(next[w] == seen[w]);
            }
        }
        if chars[run] != '0' {
            zeros = false;
        }
        run = run + 1;
    }
    proof {
        lemma_digit_run(chars@, run as int);
        if run > 0 {
            assert(chars@.take(run as int)[0] == chars[0]);
        }
    }
    if run == 0 {
        Some(TokenFault::MissingNumber)
    } else if run == n {
        Some(TokenFault::MissingUnit)
    } else if zeros {
        Some(TokenFault::ZeroNumber)
    } else if chars[0] == '0' {
        Some(TokenFault::LeadingZero)
    } else if !is_unit_char(chars[run]) {
        Some(TokenFault::UnknownUnit)
    } else if run + 1 < n {
        Some(TokenFault::TrailingInput)
    } else {
        None
    }
}

impl Frequency {
    #[verifier::type_invariant]
    spec fn well_formed(self) -> bool {
        is_token(self.0@)
    }

    /// Validates `s`. The result is `Ok` exactly for the strings of the
    /// grammar, and then keeps `s` unchanged; every other string is refused
    /// with the message of the first fault in it.
    pub fn new(s: &str) -> (out: Result<Self, ConfigError>)
        ensures
            out is Ok <==> is_token(s@),
            out matches Ok(f) ==> f@ == s@,
            out matches Err(e) ==> token_fault(s@) is Some && (e matches ConfigError::Parse(m)
                && m@ == fault_message(token_fault(s@).unwrap())),
    {
        Self::parse(s)
    }

    fn parse(s: &str) -> (out: Result<Self, ConfigError>)
        ensures
            out is Ok <==> is_token(s@),
            out matches Ok(f) ==> f@ == s@,
            out matches Err(e) ==> token_fault(s@) is Some && (e matches ConfigError::Parse(m)
                && m@ == fault_message(token_fault(s@).unwrap())),
    {
        let chars = chars_of(s);
        proof {
            lemma_fault_free_tokens(s@);
        }
        match find_fault(&chars) {
            Some(fault) => Err(ConfigError::Parse(fault_text(fault))),
            None => Ok(Frequency(String::from_str(s))),
        }
    }

    /// The number and the unit letter; the number is `None` when it does not
    /// fit in 64 bits.
    fn split_string_to_num_and_unit(&self) -> (out: (Option<u64>, char))
        ensures
            is_token(self@),
            out.1 == token_unit(self@),
            out.0 is Some <==> token_number(self@) <= u64::MAX,
            out.0 is Some ==> out.0.unwrap() as nat == token_number(self@),
    {
        proof {
            use_type_invariant(self);
        }
        let chars = chars_of(self.0.as_str());
        let last = chars.len() - 1;
        assert(chars@.subrange(0, last as int) =~= self@.drop_last());
        (parse_decimal(&chars, 0, last), chars[last])
    }

    /// The expression as it was written.
    pub fn to_string(&self) -> (out: String)
        ensures
            out@ == self@,
            out@ == decimal(token_number(self@)).push(token_unit(self@)),
    {
        proof {
            use_type_invariant(self);
            lemma_token_round_trip(self@);
        }
        self.0.clone()
    }

    /// The duration in seconds, or `None` when it does not fit in 64 bits.
    pub fn checked_seconds(&self) -> (out: Option<u64>)
        ensures
            is_token(self@),
            out is Some <==> token_seconds(self@) <= u64::MAX,
            out is Some ==> out.unwrap() as nat == token_seconds(self@),
    {
        let (number, unit) = self.split_string_to_num_and_unit();
        let scale = unit_multiplier(unit);
        proof {
            lemma_seconds_formula(self@);
        }
        match number {
            Some(n) => {
                let product = n.checked_mul(scale);
                product
            },
            None => None,
        }
    }

    /// The duration in seconds: the number times the length of the unit.
    pub fn to_seconds(&self) -> (out: u64)
        requires
            token_seconds(self@) <= u64::MAX,
        ensures
            out as nat == token_seconds(self@),
            out as nat == token_number(self@) * unit_seconds(token_unit(self@)),
    {
        match self.checked_seconds() {
            Some(seconds) => seconds,
            None => 0,
        }
    }

    /// The modifier (`/mo`) and schedule type (`/sc`) for `schtasks`.
    pub fn as_task_scheduler_components(&self) -> (out: (u32, ScheduleType))
        ensures
            out.0 as nat == task_components(token_number(self@), token_unit(self@)).0,
            out.1 == task_components(token_number(self@), token_unit(self@)).1,
    {
        let (number, unit) = self.split_string_to_num_and_unit();
        match number {
            None => (12, ScheduleType::MONTHLY),
            Some(n) => {
                if unit == 's' {
                    if n < 60 {
                        (1, ScheduleType::MINUTE)
                    } else if n / 60 < 1440 {
                        ((n / 60) as u32, ScheduleType::MINUTE)
                    } else {
                        days_to_components(n / 86400)
                    }
                } else if unit == 'm' {
                    if n < 1440 {
                        (n as u32, ScheduleType::MINUTE)
                    } else {
                        days_to_components(n / 1440)
                    }
                } else if unit == 'h' {
                    if n < 24 {
                        (n as u32, ScheduleType::HOURLY)
                    } else {
                        days_to_components(n / 24)
                    }
                } else if unit == 'd' {
                    days_to_components(n)
                } else if unit == 'w' {
                    if n < 53 {
                        (n as u32, ScheduleType::WEEKLY)
                    } else {
                        (12, ScheduleType::MONTHLY)
                    }
                } else if unit == 'M' {
                    if n < 13 {
                        (n as u32, ScheduleType::MONTHLY)
                    } else {
                        (12, ScheduleType::MONTHLY)
                    }
                } else {
                    (12, ScheduleType::MONTHLY)
                }
            },
        }
    }

    /// The systemd `OnCalendar=` expression for this frequency.
    pub fn as_on_calendar_format(&self) -> (out: String)
        ensures
            out@ == on_calendar(token_seconds(self@)),
    {
        let mut buf: Vec<char> = Vec::new();
        let ghost empty = Seq::<char>::empty();
        match self.checked_seconds() {
            None => {
                push_str(&mut buf, "yearly");
                assert(empty + "yearly"@ =~= "yearly"@);
            },
            Some(s) => {
                if s < 60 {
                    push_str(&mut buf, "*-*-* *:*:0/");
                    push_decimal(&mut buf, if s < 1 { 1 } else { s });
                    assert(empty + "*-*-* *:*:0/"@ =~= "*-*-* *:*:0/"@);
                } else if s < 3600 {
                    push_str(&mut buf, "*-*-* *:0/");
                    push_decimal(&mut buf, s / 60);
                    assert(empty + "*-*-* *:0/"@ =~= "*-*-* *:0/"@);
                } else if s < 86400 {
                    push_str(&mut buf, "*-*-* 0/");
                    push_decimal(&mut buf, s / 3600);
                    push_str(&mut buf, ":00:00");
                    assert(empty + "*-*-* 0/"@ =~= "*-*-* 0/"@);
                } else if s < 604800 {
                    push_str(&mut buf, "*-*-*/");
                    push_decimal(&mut buf, s / 86400);
                    push_str(&mut buf, " 00:00:00");
                    assert(empty + "*-*-*/"@ =~= "*-*-*/"@);
                } else if s < 2592000 {
                    let weeks = s / 604800;
                    if weeks == 1 {
                        push_str(&mut buf, "weekly");
                        assert(empty + "weekly"@ =~= "weekly"@);
                    } else {
                        push_str(&mut buf, "*-*-*/");
                        push_decimal(&mut buf, weeks * 7);
                        push_str(&mut buf, " 00:00:00");
                        assert(empty + "*-*-*/"@ =~= "*-*-*/"@);
                    }
                } else if s < 31536000 {
                    let months = s / 2592000;
                    if months == 1 {
                        push_str(&mut buf, "monthly");
                        assert(empty + "monthly"@ =~= "monthly"@);
                    } else {
                        push_str(&mut buf, "*-*-*/");
                        push_decimal(&mut buf, months * 30);
                        push_str(&mut buf, " 00:00:00");
                        assert(empty + "*-*-*/"@ =~= "*-*-*/"@);
                    }
                } else {
                    push_str(&mut buf, "yearly");
                    assert(empty + "yearly"@ =~= "yearly"@);
                }
            },
        }
        string_of(&buf)
    }
}

fn days_to_components(days: u64) -> (out: (u32, ScheduleType))
    ensures
        out.0 as nat == day_components(days as nat).0,
        out.1 == day_components(days as nat).1,
{
    if days < 366 {
        (days as u32, ScheduleType::DAILY)
    } else {
        (12, ScheduleType::MONTHLY)
    }
}

} // verus!
