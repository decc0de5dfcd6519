//! Calendar days: a day of the proleptic Gregorian calendar without time of
//! day or time zone, its canonical text `YYYY-MM-DD` and its long form for
//! display.

use vstd::prelude::*;
use vstd::string::StrSliceExecFns;
use vstd::string::StringExecFns;
use chrono::Datelike;
use crate::text::all_digits;
use crate::text::digits_value;
use crate::text::lemma_padded_text;
use crate::text::nat_text;
use crate::text::padded_text;
use crate::text::parse_digits;
use crate::text::pow10;
use crate::text::push_decimal;
use crate::text::push_padded;

verus! {

/// The layout that the canonical text of a day follows, as handed back in
/// the error of a failed reading.
pub const YAML_DATE_FORMAT: &'static str = "%Y-%m-%d";

/// Whether year `y` has a 29th of February.
pub open spec fn is_leap_year(y: int) -> bool {
    y % 4 == 0 && (y % 100 != 0 || y % 400 == 0)
}

/// The number of days of month `m` in year `y`.
pub open spec fn days_in_month(y: int, m: int) -> int {
    if m == 2 {
        if is_leap_year(y) {
            29
        } else {
            28
        }
    } else if m == 4 || m == 6 || m == 9 || m == 11 {
        30
    } else {
        31
    }
}

/// Whether month `m` and day `d` name a day that year `y` has.
pub open spec fn is_calendar_day(y: int, m: int, d: int) -> bool {
    1 <= m <= 12 && 1 <= d <= days_in_month(y, m)
}

/// Whether `(y, m, d)` is a day that a `Date` can hold: a day of the
/// calendar from 0001-01-01 to 9999-12-31.
pub open spec fn is_civil(y: int, m: int, d: int) -> bool {
    1 <= y <= 9999 && is_calendar_day(y, m, d)
}

/// The days of the calendar before the first of January of year `y`,
/// counted from 0001-01-01.
pub open spec fn days_before_year(y: int) -> int {
    365 * (y - 1) + (y - 1) / 4 - (y - 1) / 100 + (y - 1) / 400
}

/// The days of year `y` before the first of month `m`.
pub open spec fn days_before_month(y: int, m: int) -> int {
    let leap: int = if m > 2 && is_leap_year(y) {
        1
    } else {
        0
    };
    let common: int = if m == 1 {
        0
    } else if m == 2 {
        31
    } else if m == 3 {
        59
    } else if m == 4 {
        90
    } else if m == 5 {
        120
    } else if m == 6 {
        151
    } else if m == 7 {
        181
    } else if m == 8 {
        212
    } else if m == 9 {
        243
    } else if m == 10 {
        273
    } else if m == 11 {
        304
    } else {
        334
    };
    common + leap
}

/// The day of the week of `(y, m, d)`, counted from Monday as 0. The first
/// of January of year 1 is a Monday.
pub open spec fn weekday(y: int, m: int, d: int) -> int {
    (days_before_year(y) + days_before_month(y, m) + d - 1) % 7
}

/// The three letters that stand for weekday `w`, counted from Monday as 0.
pub open spec fn weekday_abbr(w: int) -> Seq<char> {
    if w == 0 {
        "Mon"@
    } else if w == 1 {
        "Tue"@
    } else if w == 2 {
        "Wed"@
    } else if w == 3 {
        "Thu"@
    } else if w == 4 {
        "Fri"@
    } else if w == 5 {
        "Sat"@
    } else {
        "Sun"@
    }
}

/// The English name of month `m`.
pub open spec fn month_name(m: int) -> Seq<char> {
    if m == 1 {
        "January"@
    } else if m == 2 {
        "February"@
    } else if m == 3 {
        "March"@
    } else if m == 4 {
        "April"@
    } else if m == 5 {
        "May"@
    } else if m == 6 {
        "June"@
    } else if m == 7 {
        "July"@
    } else if m == 8 {
        "August"@
    } else if m == 9 {
        "September"@
    } else if m == 10 {
        "October"@
    } else if m == 11 {
        "November"@
    } else {
        "December"@
    }
}

/// The canonical text of a day: four digits of the year, two of the month,
/// two of the day, joined by hyphens.
pub open spec fn iso_text(y: int, m: int, d: int) -> Seq<char> {
    padded_text(y as nat, 4) + seq!['-'] + padded_text(m as nat, 2) + seq!['-'] + padded_text(
        d as nat,
        2,
    )
}

/// The long form of a day for display: weekday, day of the month in two
/// columns, a full stop, the name of the month and the year, as in
/// `Fri 2. October 2020`.
pub open spec fn long_text(y: int, m: int, d: int) -> Seq<char> {
    weekday_abbr(weekday(y, m, d)) + (if d < 10 {
        seq![' ']
    } else {
        Seq::<char>::empty()
    }) + nat_text(d as nat) + ". "@ + month_name(m) + " "@ + padded_text(y as nat, 4)
}

/// The layout of the canonical text: ten characters, hyphens at positions
/// 4 and 7, decimal digits everywhere else.
pub open spec fn has_iso_layout(s: Seq<char>) -> bool {
    &&& s.len() == 10
    &&& s[4] == '-'
    &&& s[7] == '-'
    &&& all_digits(s.subrange(0, 4))
    &&& all_digits(s.subrange(5, 7))
    &&& all_digits(s.subrange(8, 10))
}

/// The year that a text in the canonical layout writes.
pub open spec fn iso_year(s: Seq<char>) -> int {
    digits_value(s.subrange(0, 4)) as int
}

/// The month that a text in the canonical layout writes.
pub open spec fn iso_month(s: Seq<char>) -> int {
    digits_value(s.subrange(5, 7)) as int
}

/// The day of the month that a text in the canonical layout writes.
pub open spec fn iso_day(s: Seq<char>) -> int {
    digits_value(s.subrange(8, 10)) as int
}

/// Whether `s` is the canonical text of a day that a `Date` can hold.
pub open spec fn is_iso_date(s: Seq<char>) -> bool {
    has_iso_layout(s) && is_civil(iso_year(s), iso_month(s), iso_day(s))
}

/// `chrono::NaiveDate::from_ymd_opt` has a result exactly where the month
/// and the day name a day that the year has.
#[verifier::external_body]
fn has_day(year: i32, month: u32, day: u32) -> (r: bool)
    requires
        1 <= year <= 9999,
    ensures
        r == is_calendar_day(year as int, month as int, day as int),
{
    chrono::NaiveDate::from_ymd_opt(year, month, day).is_some()
}

/// `Datelike::weekday` of the `chrono::NaiveDate` for the given day, as
/// `Weekday::num_days_from_monday` numbers it: the days from 0001-01-01, a
/// Monday, to the given day, modulo seven.
#[verifier::external_body]
fn weekday_of(year: i32, month: u32, day: u32) -> (r: u32)
    requires
        is_civil(year as int, month as int, day as int),
    ensures
        r == weekday(year as int, month as int, day as int),
{
    chrono::NaiveDate::from_ymd_opt(year, month, day).unwrap().weekday().num_days_from_monday()
}

/// A text that was offered as a day and is none, with the layout that was
/// expected.
#[derive(Debug, Clone, PartialEq, Eq)]
pub struct MalformedDate {
    pub text: String,
    pub expected: String,
}

/// The message for a text that is no day.
pub open spec fn malformed_date_text(text: Seq<char>, expected: Seq<char>) -> Seq<char> {
    "given input value \""@ + text + "\" couldn't be parsed as a date in the format "@ + expected
}

impl MalformedDate {
    /// The message that tells the user what was wrong.
    pub fn to_string(&self) -> (r: String)
        ensures
            r@ == malformed_date_text(self.text@, self.expected@),
    {
        let mut s: String = String::from_str("given input value \"");
        s.append(self.text.as_str());
        s.append("\" couldn't be parsed as a date in the format ");
        s.append(self.expected.as_str());
        s
    }
}

/// What a `Date` stands for: year, month and day of the month.
pub struct CivilDay {
    pub year: int,
    pub month: int,
    pub day: int,
}

/// A single calendar day from 0001-01-01 to 9999-12-31. Every value is a
/// day that exists.
#[derive(Debug, Clone, Copy, PartialEq, Eq, Structural, Hash)]
pub struct Date {
    year: i32,
    month: u32,
    day: u32,
}

impl View for Date {
    type V = CivilDay;

    closed spec fn view(&self) -> CivilDay {
        CivilDay { year: self.year as int, month: self.month as int, day: self.day as int }
    }
}

impl Date {
    #[verifier::type_invariant]
    spec fn exists_in_calendar(self) -> bool {
        is_civil(self.year as int, self.month as int, self.day as int)
    }

    /// Dates that stand for the same day are the same date.
    pub proof fn lemma_same_day(self, other: Date)
        requires
            self@ == other@,
        ensures
            self == other,
    {
    }

    /// The day with the given year, month and day of the month, if there is
    /// such a day from 0001-01-01 to 9999-12-31.
    pub fn from(year: i32, month: u32, day: u32) -> (r: Option<Date>)
        ensures
            r is Some <==> is_civil(year as int, month as int, day as int),
            r matches Some(date) ==> date@ == (CivilDay {
                year: year as int,
                month: month as int,
                day: day as int,
            }),
    {
        if 1 <= year && year <= 9999 && has_day(year, month, day) {
            Some(Date { year, month, day })
        } else {
            None
        }
    }

    /// The year, from 1 to 9999.
    pub fn year(&self) -> (r: i32)
        ensures
            r == self@.year,
            1 <= r <= 9999,
    {
        proof {
            use_type_invariant(self);
        }
        self.year
    }

    /// The month, from 1 to 12.
    pub fn month(&self) -> (r: u32)
        ensures
            r == self@.month,
            1 <= r <= 12,
    {
        proof {
            use_type_invariant(self);
        }
        self.month
    }

    /// The day of the month, from 1 to the last day that the month has.
    pub fn day(&self) -> (r: u32)
        ensures
            r == self@.day,
            1 <= r <= days_in_month(self@.year, self@.month),
    {
        proof {
            use_type_invariant(self);
        }
        self.day
    }

    /// The last two digits of the year.
    pub fn year_2d(&self) -> (r: u32)
        ensures
            r == self@.year % 100,
    {
        proof {
            use_type_invariant(self);
        }
        (self.year % 100) as u32
    }

    /// The canonical text `YYYY-MM-DD` of the day, as it is persisted.
    pub fn serialize(&self) -> (r: String)
        ensures
            r@ == iso_text(self@.year, self@.month, self@.day),
    {
        proof {
            use_type_invariant(self);
        }
        let mut s: String = String::new();
        push_padded(&mut s, self.year as u64, 4);
        s.push('-');
        push_padded(&mut s, self.month as u64, 2);
        s.push('-');
        push_padded(&mut s, self.day as u64, 2);
        proof {
            assert(s@ =~= iso_text(self@.year, self@.month, self@.day));
        }
        s
    }

    /// Reads a day from its canonical text. A text in another layout, or
    /// one that writes a day that does not exist, is handed back in the
    /// error.
    pub fn deserialize(text: &str) -> (r: Result<Date, MalformedDate>)
        ensures
            match r {
                Ok(date) => is_iso_date(text@) && date@ == (CivilDay {
                    year: iso_year(text@),
                    month: iso_month(text@),
                    day: iso_day(text@),
                }),
                Err(e) => !is_iso_date(text@) && e.text@ == text@ && e.expected@
                    == YAML_DATE_FORMAT@,
            },
    {
        match read_civil(text) {
            Some(date) => Ok(date),
            None => Err(
                MalformedDate {
                    text: String::from_str(text),
                    expected: String::from_str(YAML_DATE_FORMAT),
                },
            ),
        }
    }

    /// The long form of the day for display, as in `Fri 2. October 2020`.
    pub fn to_string(&self) -> (r: String)
        ensures
            r@ == long_text(self@.year, self@.month, self@.day),
    {
        proof {
            use_type_invariant(self);
        }
        let w: u32 = weekday_of(self.year, self.month, self.day);
        let mut s: String = String::from_str(weekday_abbr_of(w));
        if self.day < 10 {
            s.push(' ');
        }
        push_decimal(&mut s, self.day as u64);
        s.append(". ");
        s.append(month_name_of(self.month));
        s.append(" ");
        push_padded(&mut s, self.year as u64, 4);
        proof {
            assert(s@ =~= long_text(self@.year, self@.month, self@.day));
        }
        s
    }
}

impl Default for Date {
    /// The first of January 1970.
    fn default() -> (r: Date)
        ensures
            r@ == (CivilDay { year: 1970, month: 1, day: 1 }),
    {
        Date { year: 1970, month: 1, day: 1 }
    }
}

fn weekday_abbr_of(w: u32) -> (r: &'static str)
    ensures
        r@ == weekday_abbr(w as int),
{
    if w == 0 {
        "Mon"
    } else if w == 1 {
        "Tue"
    } else if w == 2 {
        "Wed"
    } else if w == 3 {
        "Thu"
    } else if w == 4 {
        "Fri"
    } else if w == 5 {
        "Sat"
    } else {
        "Sun"
    }
}

fn month_name_of(m: u32) -> (r: &'static str)
    ensures
        r@ == month_name(m as int),
{
    if m == 1 {
        "January"
    } else if m == 2 {
        "February"
    } else if m == 3 {
        "March"
    } else if m == 4 {
        "April"
    } else if m == 5 {
        "May"
    } else if m == 6 {
        "June"
    } else if m == 7 {
        "July"
    } else if m == 8 {
        "August"
    } else if m == 9 {
        "September"
    } else if m == 10 {
        "October"
    } else if m == 11 {
        "November"
    } else {
        "December"
    }
}

/// Reads the canonical text of a day, if `text` is one.
fn read_civil(text: &str) -> (r: Option<Date>)
    ensures
        r is Some <==> is_iso_date(text@),
        r matches Some(date) ==> date@ == (CivilDay {
            year: iso_year(text@),
            month: iso_month(text@),
            day: iso_day(text@),
        }),
{
    if text.unicode_len() != 10 {
        return None;
    }
    if text.get_char(4) != '-' || text.get_char(7) != '-' {
        return None;
    }
    let year: u64 = match parse_digits(text, 0, 4) {
        Some(v) => v,
        None => {
            proof {
                if all_digits(text@.subrange(0, 4)) {
                    lemma_short_digits(text@.subrange(0, 4));
                }
            }
            return None;
        },
    };
    let month: u64 = match parse_digits(text, 5, 7) {
        Some(v) => v,
        None => {
            proof {
                if all_digits(text@.subrange(5, 7)) {
                    lemma_short_digits(text@.subrange(5, 7));
                }
            }
            return None;
        },
    };
    let day: u64 = match parse_digits(text, 8, 10) {
        Some(v) => v,
        None => {
            proof {
                if all_digits(text@.subrange(8, 10)) {
                    lemma_short_digits(text@.subrange(8, 10));
                }
            }
            return None;
        },
    };
    proof {
        lemma_short_digits(text@.subrange(0, 4));
        lemma_short_digits(text@.subrange(5, 7));
        lemma_short_digits(text@.subrange(8, 10));
    }
    Date::from(year as i32, month as u32, day as u32)
}

proof fn lemma_pow10_small()
    ensures
        pow10(0) == 1,
        pow10(1) == 10,
        pow10(2) == 100,
        pow10(3) == 1000,
        pow10(4) == 10000,
{
    assert(pow10(0) == 1);
    assert(pow10(1) == 10 * pow10(0));
    assert(pow10(2) == 10 * pow10(1));
    assert(pow10(3) == 10 * pow10(2));
    assert(pow10(4) == 10 * pow10(3));
}

/// Up to four digits write a number below ten thousand.
proof fn lemma_short_digits(s: Seq<char>)
    requires
        s.len() <= 4,
        all_digits(s),
    ensures
        digits_value(s) < pow10(s.len()),
        digits_value(s) < 10000,
    decreases s.len(),
{
    lemma_pow10_small();
    if s.len() > 0 {
        lemma_short_digits(s.drop_last());
        assert(crate::text::is_digit(s.last()));
    }
}

/// Writing a day and reading the text back gives the day: the canonical
/// text of every day from 0001-01-01 to 9999-12-31 has exactly ten
/// characters, is the text of a day and writes that day.
pub proof fn lemma_date_round_trip(date: Date)
    requires
        is_civil(date@.year, date@.month, date@.day),
    ensures
        iso_text(date@.year, date@.month, date@.day).len() == 10,
        is_iso_date(iso_text(date@.year, date@.month, date@.day)),
        iso_year(iso_text(date@.year, date@.month, date@.day)) == date@.year,
        iso_month(iso_text(date@.year, date@.month, date@.day)) == date@.month,
        iso_day(iso_text(date@.year, date@.month, date@.day)) == date@.day,
{
    lemma_civil_round_trip(date@.year, date@.month, date@.day);
}

proof fn lemma_civil_round_trip(y: int, m: int, d: int)
    requires
        is_civil(y, m, d),
    ensures
        iso_text(y, m, d).len() == 10,
        is_iso_date(iso_text(y, m, d)),
        iso_year(iso_text(y, m, d)) == y,
        iso_month(iso_text(y, m, d)) == m,
        iso_day(iso_text(y, m, d)) == d,
{
    let t = iso_text(y, m, d);
    let a = padded_text(y as nat, 4);
    let b = padded_text(m as nat, 2);
    let c = padded_text(d as nat, 2);
    lemma_padded_text(y as nat, 4);
    lemma_padded_text(m as nat, 2);
    lemma_padded_text(d as nat, 2);
    lemma_pow10_small();
    assert((y as nat) % 10000 == y);
    assert((m as nat) % 100 == m);
    assert((d as nat) % 100 == d);
    assert(a.len() == 4 && b.len() == 2 && c.len() == 2);
    assert(t == a + seq!['-'] + b + seq!['-'] + c);
    assert(t.len() == 10);
    assert forall|i: int| 0 <= i < 4 implies t[i] == a[i] by {}
    assert forall|i: int| 0 <= i < 2 implies t[5 + i] == b[i] by {}
    assert forall|i: int| 0 <= i < 2 implies t[8 + i] == c[i] by {}
    assert(t.subrange(0, 4) =~= a);
    assert(t.subrange(5, 7) =~= b);
    assert(t.subrange(8, 10) =~= c);
    assert(t[4] == '-');
    assert(t[7] == '-');
    assert(digits_value(a) == y);
    assert(digits_value(b) == m);
    assert(digits_value(c) == d);
}

} // verus!
