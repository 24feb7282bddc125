//! Days and moments, in UTC, to the nanosecond.
//!
//! The seconds of a moment are counted from the start of 1970-01-01 as if every
//! minute had sixty. A leap second, which only ends a minute, counts as more of
//! the second before it: its nanoseconds go on from one thousand million.

use vstd::prelude::*;

verus! {

/// The first and the last day of the calendar, counted from 1970-01-01:
/// 1 January of the year -262143 and 31 December of the year 262142.
pub const FIRST_DAY: i32 = -96_465_292;

pub const LAST_DAY: i32 = 95_026_236;

pub const SECONDS_PER_MINUTE: i64 = 60;

pub const SECONDS_PER_HOUR: i64 = 3_600;

pub const SECONDS_PER_DAY: i64 = 86_400;

pub const NANOS_PER_SECOND: u32 = 1_000_000_000;

/// The first and the last second of the calendar, counted from the start of
/// 1970-01-01.
pub const FIRST_SECOND: i64 = -8_334_601_228_800;

pub const LAST_SECOND: i64 = 8_210_266_876_799;

/// A calendar day.
#[derive(Debug, Clone, Copy, PartialEq, Eq, PartialOrd, Ord, Hash)]
pub struct NaiveDate {
    days: i32,
}

/// A moment, to the nanosecond.
#[derive(Debug, Clone, Copy, PartialEq, Eq, PartialOrd, Ord, Hash)]
pub struct NaiveDateTime {
    seconds: i64,
    nanos: u32,
}

/// Where a moment stands among all others: two places for every nanosecond of
/// a second, the second half for those of a leap second that may follow it.
pub open spec fn place(seconds: int, nanos: int) -> int {
    seconds * 2_000_000_000 + nanos
}

/// The seconds from 1970-01-01 of the moment at `place`.
pub open spec fn second_of(place: int) -> int {
    place / 2_000_000_000
}

/// The nanoseconds of the moment at `place` behind its second.
pub open spec fn nanos_of(place: int) -> int {
    place % 2_000_000_000
}

/// The moment at `place` is in a leap second.
pub open spec fn in_leap_second(place: int) -> bool {
    nanos_of(place) >= NANOS_PER_SECOND
}

/// The calendar has a moment at `place`.
pub open spec fn is_moment(place: int) -> bool {
    &&& FIRST_SECOND <= second_of(place) <= LAST_SECOND
    &&& in_leap_second(place) ==> second_of(place) % 60 == 59
}

/// The moment `seconds` after (or before) the one at `place`. From within a
/// leap second one counts from the second before it, or back from the second
/// behind it.
pub open spec fn shifted(place: int, seconds: int) -> int {
    if seconds == 0 {
        place
    } else {
        let from = second_of(place) + if seconds < 0 && in_leap_second(place) {
            1int
        } else {
            0int
        };
        self::place(from + seconds, nanos_of(place) % (NANOS_PER_SECOND as int))
    }
}

/// The nanoseconds from one moment to another. A leap second between them is
/// only counted when one of them is in it and stands earlier in its day.
pub open spec fn nanos_between(from: int, to: int) -> int {
    let a = second_of(from) % (SECONDS_PER_DAY as int);
    let b = second_of(to) % (SECONDS_PER_DAY as int);
    let leap = if b > a && in_leap_second(from) {
        1int
    } else if b < a && in_leap_second(to) {
        -1int
    } else {
        0int
    };
    (second_of(to) - second_of(from) + leap) * NANOS_PER_SECOND + nanos_of(to) - nanos_of(from)
}

proof fn lemma_place(seconds: int, nanos: int)
    requires
        0 <= nanos < 2_000_000_000,
    ensures
        second_of(place(seconds, nanos)) == seconds,
        nanos_of(place(seconds, nanos)) == nanos,
{
}

/// `n` days from 1970-01-01 is a day of the calendar.
pub open spec fn is_day(n: int) -> bool {
    FIRST_DAY <= n <= LAST_DAY
}

impl View for NaiveDate {
    type V = int;

    /// Days from 1970-01-01.
    closed spec fn view(&self) -> int {
        self.days as int
    }
}

impl View for NaiveDateTime {
    type V = int;

    /// Its place among all moments.
    closed spec fn view(&self) -> int {
        place(self.seconds as int, self.nanos as int)
    }
}

impl NaiveDate {
    #[verifier::type_invariant]
    spec fn well_formed(self) -> bool {
        is_day(self.days as int)
    }

    /// The day `days` after (or before) 1970-01-01, when the calendar has it.
    pub fn from_days(days: i32) -> (r: Option<NaiveDate>)
        ensures
            match r {
                Some(d) => is_day(days as int) && d@ == days,
                None => !is_day(days as int),
            },
    {
        if FIRST_DAY <= days && days <= LAST_DAY {
            Some(NaiveDate { days })
        } else {
            None
        }
    }

    /// Days from 1970-01-01.
    pub fn days(&self) -> (r: i32)
        ensures
            r == self@,
            is_day(r as int),
    {
        proof {
            use_type_invariant(self);
        }
        self.days
    }

    pub fn is_before(&self, other: &NaiveDate) -> (r: bool)
        ensures
            r == (self@ < other@),
    {
        self.days < other.days
    }

    /// The date, written with one of the patterns of the platform.
    pub fn format(&self, pattern: &str) -> (r: String)
        requires
            is_date_pattern(pattern@),
        ensures
            r@ == chrono_date_text(self@, pattern@),
    {
        proof {
            use_type_invariant(self);
        }
        format_days(self.days, pattern)
    }
}

/// `chrono`'s pattern for dates such as `Oct 1, 2026`.
pub const MONTH_DAY_YEAR: &'static str = "%b %-d, %Y";

/// `chrono`'s pattern for dates such as `01/10/2026`.
pub const DAY_MONTH_YEAR: &'static str = "%d/%m/%Y";

/// `chrono`'s pattern for dates such as `2026-10-01`.
pub const YEAR_MONTH_DAY: &'static str = "%Y-%m-%d";

/// The patterns that dates are written with.
pub open spec fn is_date_pattern(p: Seq<char>) -> bool {
    p == MONTH_DAY_YEAR@ || p == DAY_MONTH_YEAR@ || p == YEAR_MONTH_DAY@
}

/// How many whole units there are in `seconds`, rounded down.
pub fn whole(seconds: i64, unit: i64) -> (r: i64)
    requires
        unit == SECONDS_PER_MINUTE || unit == SECONDS_PER_HOUR || unit == SECONDS_PER_DAY,
    ensures
        r == seconds as int / unit as int,
{
    if seconds >= 0 {
        seconds / unit
    } else {
        let q = (-(seconds + 1)) / unit;
        -q - 1
    }
}

/// The seconds behind the last whole unit.
pub fn second_in(seconds: i64, unit: i64) -> (r: i64)
    requires
        unit == SECONDS_PER_MINUTE || unit == SECONDS_PER_HOUR || unit == SECONDS_PER_DAY,
    ensures
        r == seconds as int % unit as int,
        0 <= r < unit,
{
    if seconds >= 0 {
        seconds % unit
    } else {
        unit - 1 - (-(seconds + 1)) % unit
    }
}

impl NaiveDateTime {
    #[verifier::type_invariant]
    spec fn well_formed(self) -> bool {
        &&& FIRST_SECOND <= self.seconds <= LAST_SECOND
        &&& self.nanos < 2 * NANOS_PER_SECOND
        &&& self.nanos >= NANOS_PER_SECOND ==> self.seconds as int % 60 == 59
    }

    /// The moment `nanos` nanoseconds behind the second `seconds`, when the
    /// calendar has it.
    pub fn from_parts(seconds: i64, nanos: u32) -> (r: Option<NaiveDateTime>)
        ensures
            match r {
                Some(t) => nanos < 2 * NANOS_PER_SECOND && t@ == place(seconds as int, nanos as int)
                    && is_moment(t@),
                None => nanos >= 2 * NANOS_PER_SECOND || !is_moment(
                    place(seconds as int, nanos as int),
                ),
            },
    {
        if nanos >= 2 * NANOS_PER_SECOND {
            return None;
        }
        proof {
            lemma_place(seconds as int, nanos as int);
        }
        if seconds < FIRST_SECOND || seconds > LAST_SECOND {
            return None;
        }
        if nanos >= NANOS_PER_SECOND && second_in(seconds, SECONDS_PER_MINUTE) != 59 {
            return None;
        }
        Some(NaiveDateTime { seconds, nanos })
    }

    /// Seconds from the start of 1970-01-01.
    pub fn seconds(&self) -> (r: i64)
        ensures
            r == second_of(self@),
            FIRST_SECOND <= r <= LAST_SECOND,
            is_moment(self@),
    {
        proof {
            use_type_invariant(self);
            lemma_place(self.seconds as int, self.nanos as int);
        }
        self.seconds
    }

    /// The nanoseconds behind the second.
    pub fn nanos(&self) -> (r: u32)
        ensures
            r == nanos_of(self@),
            r < 2 * NANOS_PER_SECOND,
            is_moment(self@),
    {
        proof {
            use_type_invariant(self);
            lemma_place(self.seconds as int, self.nanos as int);
        }
        self.nanos
    }

    pub fn is_before(&self, other: &NaiveDateTime) -> (r: bool)
        ensures
            r == (self@ < other@),
    {
        proof {
            use_type_invariant(self);
            use_type_invariant(other);
        }
        self.seconds < other.seconds || (self.seconds == other.seconds && self.nanos < other.nanos)
    }

    /// The second and the nanoseconds `seconds` seconds after (or before) this
    /// moment.
    fn parts_after(&self, seconds: i64) -> (r: (i64, u32))
        requires
            -1_000_000_000_000_000 <= seconds <= 1_000_000_000_000_000,
        ensures
            r.1 < 2 * NANOS_PER_SECOND,
            place(r.0 as int, r.1 as int) == shifted(self@, seconds as int),
            second_of(shifted(self@, seconds as int)) == r.0,
            nanos_of(shifted(self@, seconds as int)) == r.1,
            seconds != 0 ==> r.1 < NANOS_PER_SECOND,
    {
        let (s, n) = (self.seconds(), self.nanos());
        let leap = n >= NANOS_PER_SECOND;
        let (t, m) = if seconds == 0 {
            (s, n)
        } else {
            let from = if seconds < 0 && leap {
                s + 1
            } else {
                s
            };
            (
                from + seconds,
                if leap {
                    n - NANOS_PER_SECOND
                } else {
                    n
                },
            )
        };
        proof {
            lemma_place(t as int, m as int);
            assert(self@ == place(s as int, n as int));
        }
        (t, m)
    }

    /// The moment `seconds` seconds after (or before) this one.
    pub fn plus(&self, seconds: i64) -> (r: NaiveDateTime)
        requires
            is_moment(shifted(self@, seconds as int)),
        ensures
            r@ == shifted(self@, seconds as int),
    {
        let _bounds = self.seconds();
        assert(seconds != 0 ==> {
            let n = nanos_of(self@) % (NANOS_PER_SECOND as int);
            let from = second_of(self@) + if seconds < 0 && in_leap_second(self@) {
                1int
            } else {
                0int
            };
            second_of(place(from + seconds, n)) == from + seconds
        });
        let (t, n) = self.parts_after(seconds);
        NaiveDateTime { seconds: t, nanos: n }
    }

    /// Whether `seconds` seconds after this moment it is `now`, or earlier.
    pub fn reaches(&self, seconds: i64, now: &NaiveDateTime) -> (r: bool)
        requires
            0 <= seconds <= 1_000_000_000_000,
        ensures
            r == (shifted(self@, seconds as int) <= now@),
    {
        let (t, n) = self.parts_after(seconds);
        let (s, m) = (now.seconds(), now.nanos());
        t < s || (t == s && n <= m)
    }

    /// Whether `seconds` seconds after this moment it is earlier than `now`.
    pub fn passes(&self, seconds: i64, now: &NaiveDateTime) -> (r: bool)
        requires
            0 <= seconds <= 1_000_000_000_000,
        ensures
            r == (shifted(self@, seconds as int) < now@),
    {
        let (t, n) = self.parts_after(seconds);
        let (s, m) = (now.seconds(), now.nanos());
        t < s || (t == s && n < m)
    }

    /// The nanoseconds from this moment to another.
    pub fn nanos_until(&self, to: &NaiveDateTime) -> (r: i128)
        ensures
            r == nanos_between(self@, to@),
            -20_000_000_000_000_000_000_000 <= r <= 20_000_000_000_000_000_000_000,
    {
        let (s, n) = (self.seconds(), self.nanos());
        let (t, m) = (to.seconds(), to.nanos());
        let a = second_in(s, SECONDS_PER_DAY);
        let b = second_in(t, SECONDS_PER_DAY);
        let leap: i64 = if b > a && n >= NANOS_PER_SECOND {
            1
        } else if b < a && m >= NANOS_PER_SECOND {
            -1
        } else {
            0
        };
        (t - s + leap) as i128 * 1_000_000_000 + m as i128 - n as i128
    }

    /// The day of this moment.
    pub fn date(&self) -> (r: NaiveDate)
        ensures
            r@ == second_of(self@) / (SECONDS_PER_DAY as int),
    {
        let d: i64 = whole(self.seconds(), SECONDS_PER_DAY);
        NaiveDate { days: d as i32 }
    }

    /// The moment, written with one of the patterns of the platform.
    pub fn format(&self, pattern: &str) -> (r: String)
        requires
            is_moment_pattern(pattern@),
        ensures
            r@ == chrono_moment_text(self@, pattern@),
    {
        format_moment(self, pattern)
    }

    /// The moment as it stands in JSON.
    pub fn to_text(&self) -> (r: String)
        ensures
            r@ == moment_json(self@),
    {
        self.format(MOMENT)
    }

    /// The current moment.
    pub fn now() -> NaiveDateTime {
        utc_now()
    }
}

/// `chrono::Utc::now`. The time is the machine's, so nothing is claimed of it.
#[verifier::external_body]
fn utc_now() -> NaiveDateTime {
    let now = chrono::Utc::now();
    NaiveDateTime { seconds: now.timestamp(), nanos: now.timestamp_subsec_nanos() }
}

/// `chrono`'s pattern for moments such as `2026-10-01T09:30:00.500`.
pub const MOMENT: &'static str = "%Y-%m-%dT%H:%M:%S%.f";

/// `chrono`'s pattern for moments such as `2026-10-01 09:30`.
pub const DAY_AND_MINUTE: &'static str = "%Y-%m-%d %H:%M";

/// The patterns that moments are written with.
pub open spec fn is_moment_pattern(p: Seq<char>) -> bool {
    p == MOMENT@ || p == DAY_AND_MINUTE@
}

/// A moment as it stands in JSON.
pub open spec fn moment_json(place: int) -> Seq<char> {
    chrono_moment_text(place, MOMENT@)
}

/// What `NaiveDateTime::format` writes for the moment at `place`.
pub uninterp spec fn chrono_moment_text(place: int, pattern: Seq<char>) -> Seq<char>;

/// `chrono::NaiveDateTime::format`: the moment in the given pattern. The
/// writing is a function of the moment and the pattern.
#[verifier::external_body]
fn format_moment(moment: &NaiveDateTime, pattern: &str) -> (r: String)
    requires
        is_moment_pattern(pattern@),
    ensures
        r@ == chrono_moment_text(moment@, pattern@),
{
    let at = chrono::DateTime::from_timestamp(moment.seconds, moment.nanos).unwrap();
    at.naive_utc().format(pattern).to_string()
}

/// The moment that `NaiveDateTime::from_str` reads in a text: the seconds from
/// the start of 1970-01-01 and the nanoseconds behind them.
pub uninterp spec fn chrono_moment_in(text: Seq<char>) -> Option<(i64, u32)>;

/// `chrono::NaiveDateTime::from_str`: the moment in a text, in whole seconds
/// and nanoseconds, when there is one. The reading is a function of the text.
/// A moment that was written in the form of JSON is read back.
#[verifier::external_body]
fn read_moment(text: &str) -> (r: Option<(i64, u32)>)
    ensures
        r == chrono_moment_in(text@),
        forall|m: int|
            is_moment(m) && text@ == #[trigger] moment_json(m) ==> r == Some(
                (second_of(m) as i64, nanos_of(m) as u32),
            ),
{
    let moment: chrono::NaiveDateTime = text.parse().ok()?;
    Some((moment.and_utc().timestamp(), moment.and_utc().timestamp_subsec_nanos()))
}

/// What `NaiveDate::format` writes for the day `days` from 1970-01-01.
pub uninterp spec fn chrono_date_text(days: int, pattern: Seq<char>) -> Seq<char>;

/// `chrono::NaiveDate::format`: the date in the given pattern, with English
/// month names. The writing is a function of the day and the pattern.
#[verifier::external_body]
fn format_days(days: i32, pattern: &str) -> (r: String)
    requires
        is_day(days as int),
        is_date_pattern(pattern@),
    ensures
        r@ == chrono_date_text(days as int, pattern@),
{
    chrono::NaiveDate::from_epoch_days(days).unwrap().format(pattern).to_string()
}

/// The moment that a text stands for, when the calendar has it.
pub open spec fn moment_in(text: Seq<char>) -> Option<int> {
    match chrono_moment_in(text) {
        Some((seconds, nanos)) => {
            let m = place(seconds as int, nanos as int);
            if nanos < 2 * NANOS_PER_SECOND && is_moment(m) {
                Some(m)
            } else {
                None
            }
        },
        None => None,
    }
}

/// The day that a text stands for, when the calendar has it.
pub open spec fn day_in(text: Seq<char>) -> Option<int> {
    match chrono_day_in(text) {
        Some(d) => if is_day(d as int) {
            Some(d as int)
        } else {
            None
        },
        None => None,
    }
}

/// The day that `NaiveDate::from_str` reads in a text: the days from
/// 1970-01-01.
pub uninterp spec fn chrono_day_in(text: Seq<char>) -> Option<i32>;

/// `chrono::NaiveDate::from_str`: the day in a text, when there is one. The
/// reading is a function of the text. A day that was written as year, month
/// and day is read back.
#[verifier::external_body]
fn read_day(text: &str) -> (r: Option<i32>)
    ensures
        r == chrono_day_in(text@),
        forall|d: int|
            is_day(d) && text@ == #[trigger] chrono_date_text(d, YEAR_MONTH_DAY@) ==> r == Some(
                d as i32,
            ),
{
    let day: chrono::NaiveDate = text.parse().ok()?;
    Some(day.to_epoch_days())
}

impl NaiveDate {
    /// Reads a day; one that was written as year, month and day is read back.
    pub fn parse(text: &str) -> (r: Option<NaiveDate>)
        ensures
            match r {
                Some(d) => day_in(text@) == Some(d@),
                None => day_in(text@) is None,
            },
            forall|d: int|
                is_day(d) && text@ == #[trigger] chrono_date_text(d, YEAR_MONTH_DAY@) ==> day_in(
                    text@,
                ) == Some(d),
    {
        match read_day(text) {
            Some(days) => NaiveDate::from_days(days),
            None => None,
        }
    }
}

impl NaiveDateTime {
    /// Reads a moment; one that was written in the form of JSON is read back.
    pub fn parse(text: &str) -> (r: Option<NaiveDateTime>)
        ensures
            match r {
                Some(m) => moment_in(text@) == Some(m@) && is_moment(m@),
                None => moment_in(text@) is None,
            },
            forall|m: int|
                is_moment(m) && text@ == #[trigger] moment_json(m) ==> moment_in(text@) == Some(m),
    {
        match read_moment(text) {
            Some((seconds, nanos)) => NaiveDateTime::from_parts(seconds, nanos),
            None => None,
        }
    }
}

} // verus!
