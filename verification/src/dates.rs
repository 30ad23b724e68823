use vstd::prelude::*;
use vstd::string::{StrSliceExecFns, StringExecFns};

use crate::text::{digit_val, is_digit_char};

verus! {

/// True in the leap years of the proleptic Gregorian calendar.
pub open spec fn is_leap_year(y: nat) -> bool {
    y % 4 == 0 && (y % 100 != 0 || y % 400 == 0)
}

/// Number of days in month `m` of year `y`.
pub open spec fn days_in_month(y: nat, m: nat) -> nat {
    if m == 2 {
        if is_leap_year(y) {
            29
        } else {
            28
        }
    } else if m == 4 || m == 6 || m == 9 || m == 11 {
        30
    } else {
        31
    }
}

/// True when `s` has the shape `YYYY-MM-DD`: ten characters, digits in
/// the date positions and dashes between the groups.
pub open spec fn date_shape_ok(s: Seq<char>) -> bool {
    &&& s.len() == 10
    &&& is_digit_char(s[0])
    &&& is_digit_char(s[1])
    &&& is_digit_char(s[2])
    &&& is_digit_char(s[3])
    &&& s[4] == '-'
    &&& is_digit_char(s[5])
    &&& is_digit_char(s[6])
    &&& s[7] == '-'
    &&& is_digit_char(s[8])
    &&& is_digit_char(s[9])
}

/// The year a shaped date string denotes.
pub open spec fn spec_year(s: Seq<char>) -> nat {
    digit_val(s[0]) * 1000 + digit_val(s[1]) * 100 + digit_val(s[2]) * 10 + digit_val(s[3])
}

/// The month a shaped date string denotes.
pub open spec fn spec_month(s: Seq<char>) -> nat {
    digit_val(s[5]) * 10 + digit_val(s[6])
}

/// The day a shaped date string denotes.
pub open spec fn spec_day(s: Seq<char>) -> nat {
    digit_val(s[8]) * 10 + digit_val(s[9])
}

/// True when `s` is the one canonical `YYYY-MM-DD` rendering of a valid
/// calendar date: canonical shape, month in range, day within the month.
pub open spec fn date_ok(s: Seq<char>) -> bool {
    &&& date_shape_ok(s)
    &&& 1 <= spec_month(s) <= 12
    &&& 1 <= spec_day(s) <= days_in_month(spec_year(s), spec_month(s))
}

/// A calendar date, held as plain year, month and day numbers.
#[derive(Debug, Clone, Copy, PartialEq, Eq)]
pub struct Date {
    pub year: u32,
    pub month: u32,
    pub day: u32,
}

impl Date {
    /// True when the fields name a real date that has a canonical
    /// `YYYY-MM-DD` rendering.
    pub open spec fn well_formed(self) -> bool {
        &&& self.year <= 9999
        &&& 1 <= self.month <= 12
        &&& 1 <= self.day <= days_in_month(self.year as nat, self.month as nat)
    }

    /// Build a date after checking the calendar rules.
    pub fn new(year: u32, month: u32, day: u32) -> (r: Option<Date>)
        ensures
            match r {
                Some(d) => d.well_formed() && d.year == year && d.month == month && d.day == day,
                None => !(Date { year, month, day }).well_formed(),
            },
    {
        if year <= 9999 && 1 <= month && month <= 12 && 1 <= day && day <= days_in_month_exec(
            year,
            month,
        ) {
            Some(Date { year, month, day })
        } else {
            None
        }
    }
}

/// Number of days in month `m` of year `y`.
pub fn days_in_month_exec(y: u32, m: u32) -> (r: u32)
    ensures
        r as nat == days_in_month(y as nat, m as nat),
{
    if m == 2 {
        if y % 4 == 0 && (y % 100 != 0 || y % 400 == 0) {
            29
        } else {
            28
        }
    } else if m == 4 || m == 6 || m == 9 || m == 11 {
        30
    } else {
        31
    }
}

/// The character for the decimal digit `d`.
pub open spec fn digit_char(d: nat) -> char {
    if d == 0 {
        '0'
    } else if d == 1 {
        '1'
    } else if d == 2 {
        '2'
    } else if d == 3 {
        '3'
    } else if d == 4 {
        '4'
    } else if d == 5 {
        '5'
    } else if d == 6 {
        '6'
    } else if d == 7 {
        '7'
    } else if d == 8 {
        '8'
    } else {
        '9'
    }
}

/// A digit character round-trips through its numeric value.
proof fn lemma_digit_char_val(d: nat)
    requires
        d <= 9,
    ensures
        is_digit_char(digit_char(d)),
        digit_val(digit_char(d)) == d,
{
}

/// The one-character string for the decimal digit `d`.
fn digit_str(d: u32) -> (r: &'static str)
    requires
        d <= 9,
    ensures
        r@.len() == 1,
        r@[0] == digit_char(d as nat),
{
    proof {
        reveal_strlit("0");
        reveal_strlit("1");
        reveal_strlit("2");
        reveal_strlit("3");
        reveal_strlit("4");
        reveal_strlit("5");
        reveal_strlit("6");
        reveal_strlit("7");
        reveal_strlit("8");
        reveal_strlit("9");
    }
    match d {
        0 => "0",
        1 => "1",
        2 => "2",
        3 => "3",
        4 => "4",
        5 => "5",
        6 => "6",
        7 => "7",
        8 => "8",
        _ => "9",
    }
}

/// Append the two-digit, zero-padded rendering of `v` to `out`.
fn push_two_digits(out: &mut String, v: u32)
    requires
        v <= 99,
    ensures
        final(out)@ == old(out)@ + seq![digit_char((v / 10) as nat), digit_char((v % 10) as nat)],
{
    out.append(digit_str(v / 10));
    out.append(digit_str(v % 10));
    proof {
        assert(final(out)@ =~= old(out)@ + seq![
            digit_char((v / 10) as nat),
            digit_char((v % 10) as nat),
        ]);
    }
}

/// The characters a [`Date`] renders to: four year digits, a dash, two
/// month digits, a dash, two day digits, each group zero-padded and
/// reduced modulo its width.
pub open spec fn spec_date_text(d: Date) -> Seq<char> {
    seq![
        digit_char((((d.year / 100) % 100) / 10) as nat),
        digit_char((((d.year / 100) % 100) % 10) as nat),
        digit_char(((d.year % 100) / 10) as nat),
        digit_char(((d.year % 100) % 10) as nat),
        '-',
        digit_char(((d.month % 100) / 10) as nat),
        digit_char(((d.month % 100) % 10) as nat),
        '-',
        digit_char(((d.day % 100) / 10) as nat),
        digit_char(((d.day % 100) % 10) as nat),
    ]
}

/// Render a date as `YYYY-MM-DD` with zero padding.
fn render_date(d: &Date) -> (r: String)
    ensures
        r@ == spec_date_text(*d),
{
    proof {
        reveal_strlit("-");
    }
    let mut out = String::new();
    push_two_digits(&mut out, (d.year / 100) % 100);
    push_two_digits(&mut out, d.year % 100);
    out.append("-");
    push_two_digits(&mut out, d.month % 100);
    out.append("-");
    push_two_digits(&mut out, d.day % 100);
    proof {
        assert(out@ =~= spec_date_text(*d));
    }
    out
}

impl Date {
    /// The canonical `YYYY-MM-DD` rendering of this date.
    ///
    /// The result satisfies the canonical date grammar and denotes
    /// exactly this date.
    pub fn to_date_text(&self) -> (r: String)
        requires
            self.well_formed(),
        ensures
            r@ == spec_date_text(*self),
            date_ok(r@),
            spec_year(r@) == self.year,
            spec_month(r@) == self.month,
            spec_day(r@) == self.day,
    {
        let out = render_date(self);
        proof {
            let s = out@;
            lemma_digit_char_val(((((self.year / 100) % 100) / 10)) as nat);
            lemma_digit_char_val(((((self.year / 100) % 100) % 10)) as nat);
            lemma_digit_char_val(((self.year % 100) / 10) as nat);
            lemma_digit_char_val(((self.year % 100) % 10) as nat);
            lemma_digit_char_val(((self.month % 100) / 10) as nat);
            lemma_digit_char_val(((self.month % 100) % 10) as nat);
            lemma_digit_char_val(((self.day % 100) / 10) as nat);
            lemma_digit_char_val(((self.day % 100) % 10) as nat);
            assert(self.year / 100 <= 99);
            assert((self.year / 100) % 100 == self.year / 100);
            assert(self.month % 100 == self.month);
            assert(self.day % 100 == self.day);
            let q = self.year / 100;
            assert((q / 10) * 10 + q % 10 == q);
            assert(spec_year(s) == (q / 10) * 1000 + (q % 10) * 100 + ((self.year % 100) / 10) * 10
                + (self.year % 100) % 10);
            assert((q / 10) * 1000 + (q % 10) * 100 == 100 * q) by (nonlinear_arith)
                requires
                    (q / 10) * 10 + q % 10 == q,
            ;
            assert(100 * q + self.year % 100 == self.year);
            assert(spec_month(s) == self.month);
            assert(spec_day(s) == self.day);
        }
        out
    }
}

/// Parse a string that must be a canonical `YYYY-MM-DD` date.
///
/// Returns the date exactly when the string satisfies the canonical
/// date grammar; every other string, including non-canonical renderings
/// of valid dates, is rejected.
pub fn parse_date(s: &str) -> (r: Option<Date>)
    ensures
        match r {
            Some(d) => {
                &&& date_ok(s@)
                &&& d.well_formed()
                &&& d.year == spec_year(s@)
                &&& d.month == spec_month(s@)
                &&& d.day == spec_day(s@)
            },
            None => !date_ok(s@),
        },
{
    let n: usize = s.unicode_len();
    if n != 10 {
        return None;
    }
    let mut i: usize = 0;
    while i < 10
        invariant
            0 <= i <= 10,
            s@.len() == 10,
            forall|j: int|
                0 <= j < i && j != 4 && j != 7 ==> is_digit_char(#[trigger] s@[j]),
            forall|j: int| 0 <= j < i && (j == 4 || j == 7) ==> s@[j] == '-',
        decreases 10 - i,
    {
        let c = s.get_char(i);
        if i == 4 || i == 7 {
            if c != '-' {
                return None;
            }
        } else {
            if !('0' <= c && c <= '9') {
                return None;
            }
        }
        i += 1;
    }
    let year: u32 = digit_at(s, 0) * 1000 + digit_at(s, 1) * 100 + digit_at(s, 2) * 10 + digit_at(
        s,
        3,
    );
    let month: u32 = digit_at(s, 5) * 10 + digit_at(s, 6);
    let day: u32 = digit_at(s, 8) * 10 + digit_at(s, 9);
    if !(1 <= month && month <= 12) {
        return None;
    }
    if !(1 <= day && day <= days_in_month_exec(year, month)) {
        return None;
    }
    Some(Date { year, month, day })
}

/// The numeric value of the digit at position `i`.
fn digit_at(s: &str, i: usize) -> (r: u32)
    requires
        i < s@.len(),
        is_digit_char(s@[i as int]),
    ensures
        r == digit_val(s@[i as int]),
        r <= 9,
{
    let c = s.get_char(i);
    c as u32 - '0' as u32
}

/// True when `a` denotes a later calendar day than `b`.
pub open spec fn spec_date_after(a: Date, b: Date) -> bool {
    ||| a.year > b.year
    ||| (a.year == b.year && a.month > b.month)
    ||| (a.year == b.year && a.month == b.month && a.day > b.day)
}

/// Decide whether `a` falls chronologically after `b`.
pub fn date_after(a: &Date, b: &Date) -> (r: bool)
    ensures
        r == spec_date_after(*a, *b),
{
    if a.year != b.year {
        a.year > b.year
    } else if a.month != b.month {
        a.month > b.month
    } else {
        a.day > b.day
    }
}

/// Marker bounding the types accepted as date arguments.
pub trait Sealed {

}

/// Input accepted by request builders where a date is required.
///
/// String-based inputs must already be in `YYYY-MM-DD` form; a [`Date`]
/// value renders itself canonically.
pub trait DateInput: Sealed {
    /// The characters the value turns into.
    spec fn date_text(&self) -> Seq<char>;

    /// Turn the value into its date string.
    fn into_date_string(self) -> (r: String)
        ensures
            r@ == self.date_text(),
    ;
}

impl Sealed for Date {

}

impl DateInput for Date {
    open spec fn date_text(&self) -> Seq<char> {
        spec_date_text(*self)
    }

    fn into_date_string(self) -> (r: String) {
        render_date(&self)
    }
}

impl Sealed for String {

}

impl DateInput for String {
    open spec fn date_text(&self) -> Seq<char> {
        self@
    }

    fn into_date_string(self) -> (r: String) {
        self
    }
}

impl<'a> Sealed for &'a str {

}

impl<'a> DateInput for &'a str {
    open spec fn date_text(&self) -> Seq<char> {
        self@
    }

    fn into_date_string(self) -> (r: String) {
        self.to_owned()
    }
}

} // verus!
