use vstd::prelude::*;
use vstd::string::StrSliceExecFns;

verus! {

/// A time-zone-naive calendar date (year, month, day), proleptic Gregorian.
#[derive(Debug, Clone, Copy, PartialEq, Eq, Structural)]
pub struct CalendarDate {
    pub year: i32,
    pub month: u32,
    pub day: u32,
}

/// A local time of day.
#[derive(Debug, Clone, Copy, PartialEq, Eq, Structural)]
pub struct TimeOfDay {
    pub hour: u32,
    pub minute: u32,
    pub second: u32,
}

/// An absolute instant, written as its date and time of day in UTC.
#[derive(Debug, Clone, Copy, PartialEq, Eq, Structural)]
pub struct UtcDateTime {
    pub date: CalendarDate,
    pub time: TimeOfDay,
}

pub open spec fn is_leap_year(y: int) -> bool {
    (y % 4 == 0 && y % 100 != 0) || y % 400 == 0
}

pub open spec fn days_in_month(y: int, m: int) -> int {
    if m == 2 {
        if is_leap_year(y) {
            29
        } else {
            28
        }
    } else if m == 4 || m == 6 || m == 9 || m == 11 {
        30
    } else {
        31
    }
}

pub open spec fn valid_date(y: int, m: int, d: int) -> bool {
    1 <= m <= 12 && 1 <= d <= days_in_month(y, m)
}

pub open spec fn valid_time(h: int, m: int, s: int) -> bool {
    0 <= h < 24 && 0 <= m < 60 && 0 <= s < 60
}

/// The offset of each month in Sakamoto's weekday method.
pub open spec fn month_offset(m: int) -> int {
    if m == 1 {
        0
    } else if m == 2 {
        3
    } else if m == 3 {
        2
    } else if m == 4 {
        5
    } else if m == 5 {
        0
    } else if m == 6 {
        3
    } else if m == 7 {
        5
    } else if m == 8 {
        1
    } else if m == 9 {
        4
    } else if m == 10 {
        6
    } else if m == 11 {
        2
    } else {
        4
    }
}

/// A whole number of 400-year cycles, large enough to make any `i32` year
/// positive. Such a cycle is 146097 days, a whole number of weeks, so moving
/// a date by it keeps the day of the week.
pub const YEAR_SHIFT: u64 = 2147484000;

/// The earliest year of an instant: one year after the first year that
/// chrono represents, so that a local date a day off the UTC date is still
/// representable.
pub const EARLIEST_YEAR: i32 = -262142;

/// The latest year of an instant: one year before the last year that chrono
/// represents.
pub const LATEST_YEAR: i32 = 262141;

/// Day of the week of a valid date, 0 for Sunday through 6 for Saturday
/// (Sakamoto's method, on the year moved on by `YEAR_SHIFT`).
pub open spec fn weekday_of(d: CalendarDate) -> int {
    let y = d.year as int + YEAR_SHIFT as int - (if d.month < 3 {
        1int
    } else {
        0int
    });
    (y + y / 4 - y / 100 + y / 400 + month_offset(d.month as int) + d.day as int) % 7
}

/// Saturday or Sunday.
pub open spec fn is_weekend(d: CalendarDate) -> bool {
    weekday_of(d) == 0 || weekday_of(d) == 6
}

impl CalendarDate {
    pub open spec fn wf(&self) -> bool {
        valid_date(self.year as int, self.month as int, self.day as int)
    }

    /// The date, if `year`, `month` and `day` form a valid date.
    pub fn new(year: i32, month: u32, day: u32) -> (r: Option<CalendarDate>)
        ensures
            valid_date(year as int, month as int, day as int) ==> r == Some(
                CalendarDate { year, month, day },
            ),
            !valid_date(year as int, month as int, day as int) ==> r is None,
    {
        if 1 <= month && month <= 12 && 1 <= day && day <= month_length(year, month) {
            Some(CalendarDate { year, month, day })
        } else {
            None
        }
    }

    /// Day of the week, 0 for Sunday through 6 for Saturday.
    pub fn weekday(&self) -> (r: u32)
        requires
            self.wf(),
        ensures
            r as int == weekday_of(*self),
    {
        let y: u64 = if self.month < 3 {
            (self.year as i64 + YEAR_SHIFT as i64 - 1) as u64
        } else {
            (self.year as i64 + YEAR_SHIFT as i64) as u64
        };
        let w = (y + y / 4 - y / 100 + y / 400 + month_offset_exec(self.month) + self.day as u64)
            % 7;
        w as u32
    }

    /// Saturday or Sunday.
    pub fn is_weekend(&self) -> (r: bool)
        requires
            self.wf(),
        ensures
            r == is_weekend(*self),
    {
        let w = self.weekday();
        w == 0 || w == 6
    }
}

impl TimeOfDay {
    pub open spec fn wf(&self) -> bool {
        valid_time(self.hour as int, self.minute as int, self.second as int)
    }
}

impl UtcDateTime {
    /// A valid date and time of day, in a year from `EARLIEST_YEAR` through
    /// `LATEST_YEAR`.
    pub open spec fn wf(&self) -> bool {
        &&& self.date.wf()
        &&& EARLIEST_YEAR <= self.date.year <= LATEST_YEAR
        &&& self.time.wf()
    }

    /// The instant at the given UTC date and time, if those are valid and the
    /// year lies in `EARLIEST_YEAR` through `LATEST_YEAR`.
    pub fn new(year: i32, month: u32, day: u32, hour: u32, minute: u32, second: u32) -> (r:
        Option<UtcDateTime>)
        ensures
            r matches Some(t) ==> t.wf() && t == (UtcDateTime {
                date: CalendarDate { year, month, day },
                time: TimeOfDay { hour, minute, second },
            }),
            r is None ==> !(valid_date(year as int, month as int, day as int) && EARLIEST_YEAR <= year
                <= LATEST_YEAR
                && valid_time(hour as int, minute as int, second as int)),
    {
        if year < EARLIEST_YEAR || year > LATEST_YEAR || hour >= 24 || minute >= 60 || second >= 60 {
            return None;
        }
        match CalendarDate::new(year, month, day) {
            Some(date) => Some(UtcDateTime { date, time: TimeOfDay { hour, minute, second } }),
            None => None,
        }
    }
}

fn month_length(year: i32, month: u32) -> (r: u32)
    requires
        1 <= month <= 12,
    ensures
        r as int == days_in_month(year as int, month as int),
{
    if month == 2 {
        let y = year as i64 + YEAR_SHIFT as i64;
        assert(y % 4 == (year as int) % 4 && y % 100 == (year as int) % 100 && y % 400 == (
        year as int) % 400);
        if (y % 4 == 0 && y % 100 != 0) || y % 400 == 0 {
            29
        } else {
            28
        }
    } else if month == 4 || month == 6 || month == 9 || month == 11 {
        30
    } else {
        31
    }
}

fn month_offset_exec(m: u32) -> (r: u64)
    ensures
        r as int == month_offset(m as int),
{
    if m == 1 {
        0
    } else if m == 2 {
        3
    } else if m == 3 {
        2
    } else if m == 4 {
        5
    } else if m == 5 {
        0
    } else if m == 6 {
        3
    } else if m == 7 {
        5
    } else if m == 8 {
        1
    } else if m == 9 {
        4
    } else if m == 10 {
        6
    } else if m == 11 {
        2
    } else {
        4
    }
}

pub open spec fn is_digit_at(s: Seq<char>, i: int) -> bool {
    48 <= (s[i] as u32) <= 57
}

pub open spec fn digit_at(s: Seq<char>, i: int) -> int {
    (s[i] as u32) as int - 48
}

pub open spec fn digits_at(s: Seq<char>, i: int, n: int) -> bool {
    forall|k: int| i <= k < i + n ==> #[trigger] is_digit_at(s, k)
}

pub open spec fn two_digits(s: Seq<char>, i: int) -> int {
    10 * digit_at(s, i) + digit_at(s, i + 1)
}

pub open spec fn four_digits(s: Seq<char>, i: int) -> int {
    100 * two_digits(s, i) + two_digits(s, i + 2)
}

/// The date written as `YYYY-MM-DD` in `s`, if `s` is exactly that and names
/// a valid date.
pub open spec fn date_text(s: Seq<char>) -> Option<CalendarDate> {
    if s.len() == 10 && digits_at(s, 0, 4) && s[4] == '-' && digits_at(s, 5, 2) && s[7] == '-'
        && digits_at(s, 8, 2) && valid_date(four_digits(s, 0), two_digits(s, 5), two_digits(s, 8)) {
        Some(
            CalendarDate {
                year: four_digits(s, 0) as i32,
                month: two_digits(s, 5) as u32,
                day: two_digits(s, 8) as u32,
            },
        )
    } else {
        None
    }
}

/// The time written as `HH:MM:SS` in `s` from index `i` on, if those eight
/// characters are exactly that and name a valid time of day.
pub open spec fn time_text_at(s: Seq<char>, i: int) -> Option<TimeOfDay> {
    if 0 <= i && i + 8 <= s.len() && digits_at(s, i, 2) && s[i + 2] == ':' && digits_at(s, i + 3, 2)
        && s[i + 5] == ':' && digits_at(s, i + 6, 2) && valid_time(
        two_digits(s, i),
        two_digits(s, i + 3),
        two_digits(s, i + 6),
    ) {
        Some(
            TimeOfDay {
                hour: two_digits(s, i) as u32,
                minute: two_digits(s, i + 3) as u32,
                second: two_digits(s, i + 6) as u32,
            },
        )
    } else {
        None
    }
}

fn digit(s: &str, i: usize) -> (r: Option<u32>)
    requires
        i < s@.len(),
    ensures
        is_digit_at(s@, i as int) ==> r == Some(digit_at(s@, i as int) as u32),
        !is_digit_at(s@, i as int) ==> r is None,
{
    let c = s.get_char(i);
    let v = c as u32;
    if 48 <= v && v <= 57 {
        Some(v - 48)
    } else {
        None
    }
}

/// Reads `n` decimal digits of `s` from index `i` on.
fn number(s: &str, i: usize, n: usize) -> (r: Option<u32>)
    requires
        n == 2 || n == 4,
        i + n <= s@.len(),
        s@.len() <= usize::MAX,
    ensures
        r matches Some(v) ==> v < 10000,
        digits_at(s@, i as int, n as int) ==> (r matches Some(v) && v as int == (if n == 2 {
            two_digits(s@, i as int)
        } else {
            four_digits(s@, i as int)
        })),
        !digits_at(s@, i as int, n as int) ==> r is None,
{
    let a = digit(s, i);
    let b = digit(s, i + 1);
    match (a, b) {
        (Some(x), Some(y)) => {
            if n == 2 {
                return Some(10 * x + y);
            }
            let c = digit(s, i + 2);
            let d = digit(s, i + 3);
            match (c, d) {
                (Some(z), Some(w)) => Some(100 * (10 * x + y) + 10 * z + w),
                _ => {
                    proof {
                        if c is None {
                            assert(!is_digit_at(s@, i + 2));
                        } else {
                            assert(!is_digit_at(s@, i + 3));
                        }
                    }
                    None
                },
            }
        },
        _ => {
            proof {
                if a is None {
                    assert(!is_digit_at(s@, i as int));
                } else {
                    assert(!is_digit_at(s@, i + 1));
                }
            }
            None
        },
    }
}

/// Parses a date written `YYYY-MM-DD`.
pub fn parse_date(s: &str) -> (r: Option<CalendarDate>)
    ensures
        r == date_text(s@),
        r matches Some(d) ==> d.wf() && 0 <= d.year <= 9999,
{
    if s.unicode_len() != 10 || s.get_char(4) != '-' || s.get_char(7) != '-' {
        return None;
    }
    let y = number(s, 0, 4);
    let m = number(s, 5, 2);
    let d = number(s, 8, 2);
    match (y, m, d) {
        (Some(y), Some(m), Some(d)) => {
            assert(digits_at(s@, 0, 4) && digits_at(s@, 5, 2) && digits_at(s@, 8, 2));
            CalendarDate::new(y as i32, m, d)
        },
        _ => None,
    }
}

/// Parses a time of day written `HH:MM:SS` in the eight characters of `s`
/// from index `i` on.
pub fn parse_time_at(s: &str, i: usize) -> (r: Option<TimeOfDay>)
    requires
        i + 8 <= s@.len(),
    ensures
        r == time_text_at(s@, i as int),
        r matches Some(t) ==> t.wf(),
{
    let len = s.unicode_len();
    assert(i + 8 <= len);
    if s.get_char(i + 2) != ':' || s.get_char(i + 5) != ':' {
        return None;
    }
    let h = number(s, i, 2);
    let m = number(s, i + 3, 2);
    let sec = number(s, i + 6, 2);
    match (h, m, sec) {
        (Some(h), Some(m), Some(sec)) => {
            if h < 24 && m < 60 && sec < 60 {
                Some(TimeOfDay { hour: h, minute: m, second: sec })
            } else {
                None
            }
        },
        _ => None,
    }
}

} // verus!
