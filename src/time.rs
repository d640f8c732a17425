//! Calendar dates and UTC timestamps as task documents write them:
//! `YYYYMMDD` for a date and `YYYYMMDDTHHMMSSZ` for a timestamp.
use chrono::{Datelike, Timelike};
use vstd::prelude::*;

use crate::text::{
    all_digits, chars_of, digit_char, digit_value, digits_value, is_digit, lemma_padded_digits,
    padded_digits, pow10, string_of,
};

verus! {

pub open spec fn is_leap_year(y: int) -> bool {
    (y % 4 == 0 && y % 100 != 0) || y % 400 == 0
}

pub open spec fn days_in_month(y: int, m: int) -> int {
    if m == 2 {
        if is_leap_year(y) {
            29
        } else {
            28
        }
    } else if m == 4 || m == 6 || m == 9 || m == 11 {
        30
    } else {
        31
    }
}

/// A day of the proleptic Gregorian calendar with a four-digit year.
pub open spec fn valid_date(y: int, m: int, d: int) -> bool {
    0 <= y <= 9999 && 1 <= m <= 12 && 1 <= d <= days_in_month(y, m)
}

pub open spec fn valid_time(h: int, mi: int, s: int) -> bool {
    0 <= h < 24 && 0 <= mi < 60 && 0 <= s < 60
}

/// Relies on chrono's `NaiveDate::from_ymd_opt`, which gives `None` exactly for a
/// month or day that does not exist in the proleptic Gregorian calendar.
#[verifier::external_body]
fn calendar_date_exists(year: i32, month: u32, day: u32) -> (r: bool)
    requires
        0 <= year <= 9999,
    ensures
        r == valid_date(year as int, month as int, day as int),
{
    chrono::NaiveDate::from_ymd_opt(year, month, day).is_some()
}

/// Relies on chrono's `NaiveTime::from_hms_opt`, which gives `None` exactly for an
/// hour past 23, or a minute or second past 59.
#[verifier::external_body]
fn clock_time_exists(hour: u32, minute: u32, second: u32) -> (r: bool)
    ensures
        r == valid_time(hour as int, minute as int, second as int),
{
    chrono::NaiveTime::from_hms_opt(hour, minute, second).is_some()
}

/// Relies on chrono's `Utc::now`: the current UTC date and time of day, to the
/// second. A `NaiveDate` always names an existing day and `second` is below 60.
#[verifier::external_body]
fn clock_now() -> (r: (i32, u32, u32, u32, u32, u32))
    ensures
        1 <= r.1 <= 12,
        1 <= r.2 <= days_in_month(r.0 as int, r.1 as int),
        valid_time(r.3 as int, r.4 as int, r.5 as int),
{
    let t = chrono::Utc::now();
    (t.year(), t.month(), t.day(), t.hour(), t.minute(), t.second())
}

/// A calendar day.
#[derive(Clone, Copy, Debug, PartialEq, Eq, Structural)]
pub struct Date {
    pub year: u16,
    pub month: u8,
    pub day: u8,
}

/// A UTC date and time of day, to the second.
#[derive(Clone, Copy, Debug, PartialEq, Eq, Structural)]
pub struct Timestamp {
    pub date: Date,
    pub hour: u8,
    pub minute: u8,
    pub second: u8,
}

impl Date {
    pub open spec fn wf(self) -> bool {
        valid_date(self.year as int, self.month as int, self.day as int)
    }

    /// The date as `YYYYMMDD`.
    pub open spec fn text(self) -> Seq<char> {
        padded_digits(self.year as int, 4) + padded_digits(self.month as int, 2) + padded_digits(
            self.day as int,
            2,
        )
    }

    /// The date of the given year, month and day, if that day exists.
    pub fn new(year: u16, month: u8, day: u8) -> (r: Option<Date>)
        ensures
            r == (if valid_date(year as int, month as int, day as int) {
                Some(Date { year, month, day })
            } else {
                None::<Date>
            }),
    {
        if year <= 9999 && calendar_date_exists(year as i32, month as u32, day as u32) {
            Some(Date { year, month, day })
        } else {
            None
        }
    }

    pub fn to_text(&self) -> (r: String)
        requires
            self.wf(),
        ensures
            r@ == self.text(),
    {
        let mut out: Vec<char> = Vec::new();
        push_date(&mut out, self);
        string_of(&out)
    }
}

impl Timestamp {
    pub open spec fn wf(self) -> bool {
        self.date.wf() && valid_time(self.hour as int, self.minute as int, self.second as int)
    }

    /// A number that orders timestamps as time does.
    pub open spec fn order_key(self) -> int {
        ((((self.date.year as int * 13 + self.date.month as int) * 32 + self.date.day as int) * 24
            + self.hour as int) * 60 + self.minute as int) * 60 + self.second as int
    }

    /// Whether `self` is not later than `other`.
    pub open spec fn not_after(self, other: Timestamp) -> bool {
        self.order_key() <= other.order_key()
    }

    /// The timestamp as `YYYYMMDDTHHMMSSZ`.
    pub open spec fn text(self) -> Seq<char> {
        self.date.text() + seq!['T'] + padded_digits(self.hour as int, 2) + padded_digits(
            self.minute as int,
            2,
        ) + padded_digits(self.second as int, 2) + seq!['Z']
    }

    /// The timestamp of the given day and time of day, if both exist.
    pub fn new(date: Date, hour: u8, minute: u8, second: u8) -> (r: Option<Timestamp>)
        ensures
            r == (if date.wf() && valid_time(hour as int, minute as int, second as int) {
                Some(Timestamp { date, hour, minute, second })
            } else {
                None::<Timestamp>
            }),
    {
        match Date::new(date.year, date.month, date.day) {
            Some(_) => {
                if clock_time_exists(hour as u32, minute as u32, second as u32) {
                    Some(Timestamp { date, hour, minute, second })
                } else {
                    None
                }
            },
            None => None,
        }
    }

    /// The current UTC time, to the second. A clock outside the years 0 to 9999
    /// reads as the nearest end of that range.
    pub fn now() -> (r: Timestamp)
        ensures
            r.wf(),
    {
        let (y, m, d, h, mi, s) = clock_now();
        if y < 0 {
            Timestamp { date: Date { year: 0, month: 1, day: 1 }, hour: 0, minute: 0, second: 0 }
        } else if y > 9999 {
            Timestamp {
                date: Date { year: 9999, month: 12, day: 31 },
                hour: 23,
                minute: 59,
                second: 59,
            }
        } else {
            Timestamp {
                date: Date { year: y as u16, month: m as u8, day: d as u8 },
                hour: h as u8,
                minute: mi as u8,
                second: s as u8,
            }
        }
    }

    pub fn to_text(&self) -> (r: String)
        requires
            self.wf(),
        ensures
            r@ == self.text(),
    {
        let mut out: Vec<char> = Vec::new();
        push_date(&mut out, &self.date);
        out.push('T');
        push_padded(&mut out, self.hour as u16, 2);
        push_padded(&mut out, self.minute as u16, 2);
        push_padded(&mut out, self.second as u16, 2);
        out.push('Z');
        string_of(&out)
    }
}

fn push_padded(out: &mut Vec<char>, n: u16, width: u8)
    ensures
        final(out)@ == old(out)@ + padded_digits(n as int, width as nat),
    decreases width,
{
    if width > 0 {
        push_padded(out, n / 10, width - 1);
        let digit: u8 = (n % 10) as u8;
        out.push((digit + 48) as char);
        assert(final(out)@ == old(out)@ + padded_digits(n as int, width as nat));
    } else {
        assert(old(out)@ + padded_digits(n as int, 0) == old(out)@);
    }
}

fn push_date(out: &mut Vec<char>, d: &Date)
    ensures
        final(out)@ == old(out)@ + d.text(),
{
    push_padded(out, d.year, 4);
    push_padded(out, d.month as u16, 2);
    push_padded(out, d.day as u16, 2);
    assert(final(out)@ == old(out)@ + d.text());
}

/// The date that `s` writes as `YYYYMMDD`, if it is one.
pub open spec fn date_from_text(s: Seq<char>) -> Option<Date> {
    let y = digits_value(s.subrange(0, 4));
    let m = digits_value(s.subrange(4, 6));
    let d = digits_value(s.subrange(6, 8));
    if s.len() == 8 && all_digits(s) && valid_date(y, m, d) {
        Some(Date { year: y as u16, month: m as u8, day: d as u8 })
    } else {
        None
    }
}

/// The timestamp that `s` writes as `YYYYMMDDTHHMMSSZ`, if it is one.
pub open spec fn timestamp_from_text(s: Seq<char>) -> Option<Timestamp> {
    let h = digits_value(s.subrange(9, 11));
    let mi = digits_value(s.subrange(11, 13));
    let sec = digits_value(s.subrange(13, 15));
    if s.len() == 16 && s[8] == 'T' && s[15] == 'Z' && date_from_text(s.subrange(0, 8)) is Some
        && all_digits(s.subrange(9, 15)) && valid_time(h, mi, sec) {
        Some(
            Timestamp {
                date: date_from_text(s.subrange(0, 8))->Some_0,
                hour: h as u8,
                minute: mi as u8,
                second: sec as u8,
            },
        )
    } else {
        None
    }
}

/// The value of the digits `cs[start..end]`, if they are all digits.
fn digits_in(cs: &Vec<char>, start: usize, end: usize) -> (r: Option<u32>)
    requires
        start <= end <= cs@.len(),
        end - start <= 4,
    ensures
        r == (if all_digits(cs@.subrange(start as int, end as int)) {
            Some(digits_value(cs@.subrange(start as int, end as int)) as u32)
        } else {
            None::<u32>
        }),
        r is Some ==> 0 <= digits_value(cs@.subrange(start as int, end as int)) < pow10(
            (end - start) as nat,
        ),
{
    let mut acc: u32 = 0;
    let mut i: usize = start;
    while i < end
        invariant
            start <= i <= end <= cs@.len(),
            end - start <= 4,
            all_digits(cs@.subrange(start as int, i as int)),
            acc as int == digits_value(cs@.subrange(start as int, i as int)),
            0 <= acc < pow10((i - start) as nat),
        decreases end - i,
    {
        let c = cs[i];
        if !('0' <= c && c <= '9') {
            assert(!all_digits(cs@.subrange(start as int, end as int))) by {
                assert(cs@.subrange(start as int, end as int)[i - start] == c);
            }
            return None;
        }
        let ghost prev = cs@.subrange(start as int, i as int);
        let ghost next = cs@.subrange(start as int, i + 1);
        assert(next.drop_last() == prev);
        assert(next.last() == c);
        assert(pow10((i + 1 - start) as nat) == 10 * pow10((i - start) as nat));
        assert(pow10((i - start) as nat) <= 1000) by {
            reveal_with_fuel(pow10, 4);
        }
        acc = acc * 10 + ((c as u32) - 48);
        i = i + 1;
    }
    Some(acc)
}

/// The date written as `YYYYMMDD` in `s`, if `s` is exactly that.
pub fn parse_date(s: &str) -> (r: Option<Date>)
    ensures
        r == date_from_text(s@),
{
    let cs = chars_of(s);
    date_in(&cs)
}

fn date_in(cs: &Vec<char>) -> (r: Option<Date>)
    ensures
        r == date_from_text(cs@),
{
    if cs.len() != 8 {
        return None;
    }
    let ghost s = cs@;
    assert(pow10(4) == 10000 && pow10(2) == 100) by {
        reveal_with_fuel(pow10, 5);
    }
    match (digits_in(cs, 0, 4), digits_in(cs, 4, 6), digits_in(cs, 6, 8)) {
        (Some(y), Some(m), Some(d)) => {
            proof {
                lemma_all_digits_split(s, 4, 6);
            }
            if let Some(date) = Date::new(y as u16, m as u8, d as u8) {
                Some(date)
            } else {
                None
            }
        },
        _ => {
            proof {
                if all_digits(s) {
                    lemma_all_digits_sub(s, 0, 4);
                    lemma_all_digits_sub(s, 4, 6);
                    lemma_all_digits_sub(s, 6, 8);
                }
            }
            None
        },
    }
}

/// The timestamp written as `YYYYMMDDTHHMMSSZ` in `s`, if `s` is exactly that.
pub fn parse_timestamp(s: &str) -> (r: Option<Timestamp>)
    ensures
        r == timestamp_from_text(s@),
{
    let cs = chars_of(s);
    if cs.len() != 16 || cs[8] != 'T' || cs[15] != 'Z' {
        return None;
    }
    let ghost v = cs@;
    let mut head: Vec<char> = Vec::new();
    let mut i: usize = 0;
    while i < 8
        invariant
            0 <= i <= 8,
            cs@ == v,
            v.len() == 16,
            head@ == v.subrange(0, i as int),
        decreases 8 - i,
    {
        head.push(cs[i]);
        i = i + 1;
    }
    let date = match date_in(&head) {
        Some(d) => d,
        None => {
            return None;
        },
    };
    assert(pow10(2) == 100) by {
        reveal_with_fuel(pow10, 3);
    }
    match (digits_in(&cs, 9, 11), digits_in(&cs, 11, 13), digits_in(&cs, 13, 15)) {
        (Some(h), Some(mi), Some(sec)) => {
            proof {
                let t = v.subrange(9, 15);
                assert(t.subrange(0, 2) == v.subrange(9, 11));
                assert(t.subrange(2, 4) == v.subrange(11, 13));
                assert(t.subrange(4, 6) == v.subrange(13, 15));
                lemma_all_digits_split(t, 2, 4);
            }
            match Timestamp::new(date, h as u8, mi as u8, sec as u8) {
                Some(t) => Some(t),
                None => None,
            }
        },
        _ => {
            proof {
                let t = v.subrange(9, 15);
                if all_digits(t) {
                    assert(t.subrange(0, 2) == v.subrange(9, 11));
                    assert(t.subrange(2, 4) == v.subrange(11, 13));
                    assert(t.subrange(4, 6) == v.subrange(13, 15));
                    lemma_all_digits_sub(t, 0, 2);
                    lemma_all_digits_sub(t, 2, 4);
                    lemma_all_digits_sub(t, 4, 6);
                }
            }
            None
        },
    }
}

proof fn lemma_all_digits_sub(s: Seq<char>, a: int, b: int)
    requires
        all_digits(s),
        0 <= a <= b <= s.len(),
    ensures
        all_digits(s.subrange(a, b)),
{
    assert forall|i: int| 0 <= i < b - a implies is_digit(#[trigger] s.subrange(a, b)[i]) by {
        assert(s.subrange(a, b)[i] == s[a + i]);
    }
}

/// A sequence whose three consecutive parts `[0, a)`, `[a, b)`, `[b, len)` are all
/// digits is all digits.
proof fn lemma_all_digits_split(s: Seq<char>, a: int, b: int)
    requires
        0 <= a <= b <= s.len(),
        all_digits(s.subrange(0, a)),
        all_digits(s.subrange(a, b)),
        all_digits(s.subrange(b, s.len() as int)),
    ensures
        all_digits(s),
{
    assert forall|i: int| 0 <= i < s.len() implies is_digit(#[trigger] s[i]) by {
        if i < a {
            assert(s.subrange(0, a)[i] == s[i]);
        } else if i < b {
            assert(s.subrange(a, b)[i - a] == s[i]);
        } else {
            assert(s.subrange(b, s.len() as int)[i - b] == s[i]);
        }
    }
}

/// A date reads back as itself from its text.
pub proof fn lemma_date_text_round_trip(d: Date)
    requires
        d.wf(),
    ensures
        date_from_text(d.text()) == Some(d),
{
    let s = d.text();
    lemma_padded_digits(d.year as int, 4);
    lemma_padded_digits(d.month as int, 2);
    lemma_padded_digits(d.day as int, 2);
    assert(pow10(4) == 10000 && pow10(2) == 100) by {
        reveal_with_fuel(pow10, 5);
    }
    assert(s.subrange(0, 4) == padded_digits(d.year as int, 4));
    assert(s.subrange(4, 6) == padded_digits(d.month as int, 2));
    assert(s.subrange(6, 8) == padded_digits(d.day as int, 2));
    lemma_all_digits_split(s, 4, 6);
}

/// A timestamp reads back as itself from its text.
pub proof fn lemma_timestamp_text_round_trip(t: Timestamp)
    requires
        t.wf(),
    ensures
        timestamp_from_text(t.text()) == Some(t),
{
    let s = t.text();
    lemma_date_text_round_trip(t.date);
    lemma_padded_digits(t.hour as int, 2);
    lemma_padded_digits(t.minute as int, 2);
    lemma_padded_digits(t.second as int, 2);
    assert(pow10(2) == 100) by {
        reveal_with_fuel(pow10, 3);
    }
    assert(s.subrange(0, 8) == t.date.text());
    assert(s[8] == 'T');
    assert(s[15] == 'Z');
    let u = s.subrange(9, 15);
    assert(u.subrange(0, 2) == padded_digits(t.hour as int, 2));
    assert(u.subrange(2, 4) == padded_digits(t.minute as int, 2));
    assert(u.subrange(4, 6) == padded_digits(t.second as int, 2));
    assert(s.subrange(9, 11) == padded_digits(t.hour as int, 2));
    assert(s.subrange(11, 13) == padded_digits(t.minute as int, 2));
    assert(s.subrange(13, 15) == padded_digits(t.second as int, 2));
    lemma_all_digits_split(u, 2, 4);
}

} // verus!
