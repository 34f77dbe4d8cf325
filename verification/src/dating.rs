//! Dates, periods, and the arithmetic that adds a period to a date with
//! month/year carry and leap-year handling, plus a stepped date sequence.

use vstd::prelude::*;
use vstd::arithmetic::div_mod::{
    lemma_div_pos_is_pos, lemma_fundamental_div_mod, lemma_fundamental_div_mod_converse,
    lemma_mod_multiples_basic,
};
use vstd::string::StringExecFns;

use crate::text::{append_int, append_two, int_text, two_text};

verus! {

/// An absolute calendar day (proleptic Gregorian). The plain constructor does
/// not validate; arithmetic normalizes its result so that `m` lies in 1..=12
/// and `d` in 1..=days of that month.
#[derive(PartialEq, Eq, Structural, Clone, Copy, Debug)]
pub struct Date {
    pub y: i32,
    pub m: i32,
    pub d: i32,
}

/// A relative duration of independent year, month and day components; no
/// normalization is applied to a period by itself.
#[derive(PartialEq, Eq, Structural, Clone, Copy, Debug)]
pub struct Period {
    pub y: i32,
    pub m: i32,
    pub d: i32,
}

/// The mathematical model of a `Date`.
pub struct DateV {
    pub y: int,
    pub m: int,
    pub d: int,
}

/// The mathematical model of a `Period`.
pub struct PeriodV {
    pub y: int,
    pub m: int,
    pub d: int,
}

impl View for Date {
    type V = DateV;

    open spec fn view(&self) -> DateV {
        DateV { y: self.y as int, m: self.m as int, d: self.d as int }
    }
}

impl View for Period {
    type V = PeriodV;

    open spec fn view(&self) -> PeriodV {
        PeriodV { y: self.y as int, m: self.m as int, d: self.d as int }
    }
}

/// The Gregorian leap-year rule: divisible by 400, or divisible by 4 but
/// not by 100.
pub open spec fn leap_year(y: int) -> bool {
    y % 400 == 0 || (y % 100 != 0 && y % 4 == 0)
}

/// Length of a month in the common (non-leap) year.
pub open spec fn common_month_length(m: int) -> int
    recommends
        1 <= m <= 12,
{
    if m == 2 {
        28
    } else if m == 4 || m == 6 || m == 9 || m == 11 {
        30
    } else {
        31
    }
}

/// Length of month `m` of year `y`.
pub open spec fn days_in_month(y: int, m: int) -> int
    recommends
        1 <= m <= 12,
{
    if m == 2 && leap_year(y) {
        29
    } else {
        common_month_length(m)
    }
}

/// A normalized date: month in range, day in range for that month and year.
pub open spec fn valid_date(d: DateV) -> bool {
    &&& 1 <= d.m <= 12
    &&& 1 <= d.d <= days_in_month(d.y, d.m)
}

/// Divisibility transfers between an integer and its negation.
proof fn lemma_neg_divisible(y: int, n: int)
    requires
        n > 0,
    ensures
        ((-y) % n == 0) <==> (y % n == 0),
{
    if y % n == 0 {
        lemma_fundamental_div_mod(y, n);
        assert(-y == (-(y / n)) * n) by (nonlinear_arith)
            requires y == n * (y / n) + y % n && y % n == 0;
        lemma_mod_multiples_basic(-(y / n), n);
    }
    if (-y) % n == 0 {
        lemma_fundamental_div_mod(-y, n);
        assert(y == (-((-y) / n)) * n) by (nonlinear_arith)
            requires -y == n * ((-y) / n) + (-y) % n && (-y) % n == 0;
        lemma_mod_multiples_basic(-((-y) / n), n);
    }
}

/// Leap-year test on a wide integer; years of either sign.
fn leap_year_i64(y: i64) -> (r: bool)
    requires
        y > i64::MIN,
    ensures
        r == leap_year(y as int),
{
    let a: i64 = if y < 0 { -y } else { y };
    let a: u64 = a as u64;
    proof {
        lemma_neg_divisible(y as int, 400);
        lemma_neg_divisible(y as int, 100);
        lemma_neg_divisible(y as int, 4);
    }
    if a % 400 == 0 {
        true
    } else if a % 100 == 0 {
        false
    } else {
        a % 4 == 0
    }
}

/// Whether `year` is a Gregorian leap year.
pub fn is_leap(year: i32) -> (r: bool)
    ensures
        r == leap_year(year as int),
{
    leap_year_i64(year as i64)
}

/// The length of month `m` in a common (non-leap) year; leap-year
/// adjustment of February is the caller's concern.
pub fn month_length(m: i32) -> (r: i32)
    requires
        1 <= m <= 12,
    ensures
        r == common_month_length(m as int),
{
    if m == 2 {
        28
    } else if m == 4 || m == 6 || m == 9 || m == 11 {
        30
    } else {
        31
    }
}

/// The year/month part of adding a period: years and months are combined
/// first, with floor semantics on the month carry, and the day delta is
/// stacked on the day field untouched.
pub open spec fn month_carry(d: DateV, p: PeriodV) -> DateV {
    let raw = d.m + p.m - 1;
    DateV { y: d.y + p.y + raw / 12, m: raw % 12 + 1, d: d.d + p.d }
}

/// Day normalization: while the day count exceeds the current month's
/// length, subtract that length and move to the next month, rolling
/// December into the next year.
pub open spec fn roll_days(y: int, m: int, day: int) -> DateV
    recommends
        1 <= m <= 12,
    decreases day,
{
    if 1 <= m <= 12 && day > days_in_month(y, m) {
        if m == 12 {
            roll_days(y + 1, 1, day - days_in_month(y, m))
        } else {
            roll_days(y, m + 1, day - days_in_month(y, m))
        }
    } else {
        DateV { y: y, m: m, d: day }
    }
}

/// What adding a period to a date yields: month carry first, then day
/// normalization.
pub open spec fn add_spec(d: DateV, p: PeriodV) -> DateV {
    let c = month_carry(d, p);
    roll_days(c.y, c.m, c.d)
}

/// Day normalization always lands in a valid date when it starts from a
/// month in range and at least one day.
proof fn lemma_roll_days_valid(y: int, m: int, day: int)
    requires
        1 <= m <= 12,
        1 <= day,
    ensures
        valid_date(roll_days(y, m, day)),
    decreases day,
{
    if day > days_in_month(y, m) {
        if m == 12 {
            lemma_roll_days_valid(y + 1, 1, day - days_in_month(y, m));
        } else {
            lemma_roll_days_valid(y, m + 1, day - days_in_month(y, m));
        }
    }
}

/// Day normalization never moves the year backwards.
proof fn lemma_roll_days_y_grows(y: int, m: int, day: int)
    requires
        1 <= m <= 12,
    ensures
        roll_days(y, m, day).y >= y,
    decreases day,
{
    if day > days_in_month(y, m) {
        if m == 12 {
            lemma_roll_days_y_grows(y + 1, 1, day - days_in_month(y, m));
        } else {
            lemma_roll_days_y_grows(y, m + 1, day - days_in_month(y, m));
        }
    }
}

/// Adding a period with a non-negative day component to a valid date
/// always yields a valid date: month in 1..=12 and day within that
/// month's range for its year.
pub proof fn lemma_add_valid(d: DateV, p: PeriodV)
    requires
        valid_date(d),
        p.d >= 0,
    ensures
        valid_date(add_spec(d, p)),
{
    let c = month_carry(d, p);
    lemma_roll_days_valid(c.y, c.m, c.d);
}

/// Adding the zero period to a valid date gives the date back unchanged.
pub proof fn lemma_add_identity(d: DateV)
    requires
        valid_date(d),
    ensures
        add_spec(d, PeriodV { y: 0, m: 0, d: 0 }) == d,
{
    let raw = d.m - 1;
    lemma_fundamental_div_mod_converse(raw, 12, 0, raw);
    let c = month_carry(d, PeriodV { y: 0, m: 0, d: 0 });
    assert(c == DateV { y: d.y, m: d.m, d: d.d });
    assert(roll_days(c.y, c.m, c.d) == c);
}

/// With non-negative year and month components the carried and rolled
/// year never falls below the starting year.
pub proof fn lemma_add_y_grows(d: DateV, p: PeriodV)
    requires
        1 <= d.m,
        1 <= d.d,
        p.y >= 0,
        p.m >= 0,
    ensures
        add_spec(d, p).y >= d.y,
{
    let raw = d.m + p.m - 1;
    lemma_div_pos_is_pos(raw, 12);
    let c = month_carry(d, p);
    lemma_roll_days_y_grows(c.y, c.m, c.d);
}

/// The length of month `m` of year `y`, leap years included.
fn month_max(y: i64, m: i64) -> (r: i64)
    requires
        y > i64::MIN,
        1 <= m <= 12,
    ensures
        r == days_in_month(y as int, m as int),
{
    if m == 2 && leap_year_i64(y) {
        29
    } else if m == 2 {
        28
    } else if m == 4 || m == 6 || m == 9 || m == 11 {
        30
    } else {
        31
    }
}

impl Date {
    /// Bundle a year, month and day; no validation is applied, so an
    /// unnormalized month or day is the caller's responsibility.
    pub fn new(y: i32, m: i32, d: i32) -> (r: Self)
        ensures
            r == (Date { y, m, d }),
    {
        Date { y, m, d }
    }

    /// Add a period: years and months first, then the day delta, with the
    /// overflowing days rolled into later months and years. Total for a
    /// non-negative day component; the year bounds keep every intermediate
    /// value inside machine integers.
    pub fn add(self, p: Period) -> (r: Self)
        requires
            valid_date(self@),
            -1000000 <= self.y <= 1000000,
            -1000000 <= p.y <= 1000000,
            -1000000000 <= p.m <= 1000000000,
            0 <= p.d <= 1000000000,
        ensures
            r@ == add_spec(self@, p@),
            valid_date(r@),
    {
        let raw: i64 = self.m as i64 + p.m as i64 - 1;
        // Floor division of `raw` by 12, computed on a shifted non-negative
        // value so that the machine division agrees with the mathematical one.
        let shifted: u64 = (raw + 2400000000) as u64;
        let q: i64 = (shifted / 12) as i64 - 200000000;
        let mut m: i64 = (shifted % 12) as i64 + 1;
        proof {
            lemma_fundamental_div_mod(shifted as int, 12);
            lemma_fundamental_div_mod_converse(raw as int, 12, q as int, (m - 1) as int);
        }
        let mut y: i64 = self.y as i64 + p.y as i64 + q;
        let mut d: i64 = self.d as i64 + p.d as i64;
        let ghost c = month_carry(self@, p@);
        proof {
            assert(c == DateV { y: y as int, m: m as int, d: d as int });
        }
        let mut dmax: i64 = month_max(y, m);
        while d > dmax
            invariant
                1 <= m <= 12,
                1 <= d,
                dmax == days_in_month(y as int, m as int),
                c == month_carry(self@, p@),
                c.d <= 1000000031,
                -300000000 <= c.y <= 300000000,
                roll_days(y as int, m as int, d as int) == roll_days(c.y, c.m, c.d),
                12 * c.y + c.m <= 12 * y + m,
                28 * (12 * y + m) <= 28 * (12 * c.y + c.m) + (c.d - d),
            decreases d,
        {
            d = d - dmax;
            m = m + 1;
            if m > 12 {
                y = y + 1;
                m = 1;
            }
            dmax = month_max(y, m);
        }
        proof {
            lemma_add_valid(self@, p@);
        }
        Date { y: y as i32, m: m as i32, d: d as i32 }
    }

    /// In-place form of `add`.
    pub fn add_assign(&mut self, p: Period)
        requires
            valid_date(old(self)@),
            -1000000 <= old(self).y <= 1000000,
            -1000000 <= p.y <= 1000000,
            -1000000000 <= p.m <= 1000000000,
            0 <= p.d <= 1000000000,
        ensures
            final(self)@ == add_spec(old(self)@, p@),
            valid_date(final(self)@),
    {
        let s = *self;
        *self = s.add(p);
    }
}

impl Period {
    /// Component-wise sum of two periods; no carry between components.
    pub fn add(self, other: Period) -> (r: Self)
        requires
            i32::MIN <= self.y + other.y <= i32::MAX,
            i32::MIN <= self.m + other.m <= i32::MAX,
            i32::MIN <= self.d + other.d <= i32::MAX,
        ensures
            r@.y == self@.y + other@.y,
            r@.m == self@.m + other@.m,
            r@.d == self@.d + other@.d,
    {
        Period { y: self.y + other.y, m: self.m + other.m, d: self.d + other.d }
    }
}

/// Strict lexicographic order on (year, month, day).
pub open spec fn date_lt(a: DateV, b: DateV) -> bool {
    ||| a.y < b.y
    ||| (a.y == b.y && a.m < b.m)
    ||| (a.y == b.y && a.m == b.m && a.d < b.d)
}

/// Non-strict lexicographic order on (year, month, day).
pub open spec fn date_le(a: DateV, b: DateV) -> bool {
    date_lt(a, b) || a == b
}

impl core::cmp::PartialOrd for Date {
    fn partial_cmp(&self, other: &Self) -> (r: Option<core::cmp::Ordering>) {
        if self.y < other.y {
            Some(core::cmp::Ordering::Less)
        } else if self.y > other.y {
            Some(core::cmp::Ordering::Greater)
        } else if self.m < other.m {
            Some(core::cmp::Ordering::Less)
        } else if self.m > other.m {
            Some(core::cmp::Ordering::Greater)
        } else if self.d < other.d {
            Some(core::cmp::Ordering::Less)
        } else if self.d > other.d {
            Some(core::cmp::Ordering::Greater)
        } else {
            Some(core::cmp::Ordering::Equal)
        }
    }
}

impl vstd::std_specs::cmp::PartialOrdSpecImpl for Date {
    open spec fn obeys_partial_cmp_spec() -> bool {
        true
    }

    open spec fn partial_cmp_spec(&self, other: &Self) -> Option<core::cmp::Ordering> {
        if date_lt(self@, other@) {
            Some(core::cmp::Ordering::Less)
        } else if date_lt(other@, self@) {
            Some(core::cmp::Ordering::Greater)
        } else {
            Some(core::cmp::Ordering::Equal)
        }
    }
}

/// A lazy, forward-only sequence of dates: a cursor, an inclusive upper
/// bound, and the period added at each advance.
pub struct Dates {
    pub now: Date,
    pub end: Date,
    pub skip: Period,
}

/// What the sequence maintains so that advancing stays within machine
/// bounds: a valid cursor, a non-negative step, and year bounds on the
/// cursor, the end and the step.
pub open spec fn dates_wf(s: Dates) -> bool {
    &&& valid_date(s.now@)
    &&& -1000000 <= s.now@.y
    &&& s.end@.y <= 1000000
    &&& 0 <= s.skip@.y <= 1000000
    &&& 0 <= s.skip@.m <= 1000000000
    &&& 0 <= s.skip@.d <= 1000000000
}

impl Dates {
    pub fn new(now: Date, end: Date, skip: Period) -> (r: Self)
        ensures
            r.now == now,
            r.end == end,
            r.skip == skip,
    {
        Dates { now, end, skip }
    }

    /// Produce the next date, or nothing once the cursor has passed the
    /// end. On emission the cursor advances by the step.
    pub fn next(&mut self) -> (r: Option<Date>)
        requires
            dates_wf(*old(self)),
        ensures
            dates_wf(*final(self)),
            final(self).end == old(self).end,
            final(self).skip == old(self).skip,
            date_lt(old(self).end@, old(self).now@) ==> r is None && *final(self) == *old(self),
            date_le(old(self).now@, old(self).end@) ==> {
                &&& r == Some(old(self).now)
                &&& final(self).now@ == add_spec(old(self).now@, old(self).skip@)
            },
    {
        if self.now > self.end {
            None
        } else {
            let now = self.now;
            proof {
                lemma_add_y_grows(self.now@, self.skip@);
            }
            let stepped = now.add(self.skip);
            self.now = stepped;
            Some(now)
        }
    }
}

/// A linear embedding of dates into the integers: strictly monotone on
/// valid dates, used to measure progress of the stepped sequence.
pub open spec fn date_measure(d: DateV) -> int {
    500 * d.y + 31 * d.m + d.d
}

/// Day normalization never lowers the measure: a month step trades at
/// most 31 days for one month, a year step trades twelve months for one
/// year.
proof fn lemma_roll_days_measure(y: int, m: int, day: int)
    requires
        1 <= m <= 12,
    ensures
        date_measure(roll_days(y, m, day)) >= 500 * y + 31 * m + day,
    decreases day,
{
    if 1 <= m <= 12 && day > days_in_month(y, m) {
        if m == 12 {
            lemma_roll_days_measure(y + 1, 1, day - days_in_month(y, m));
        } else {
            lemma_roll_days_measure(y, m + 1, day - days_in_month(y, m));
        }
    }
}

/// On valid dates the measure respects the lexicographic order.
pub proof fn lemma_measure_monotone(a: DateV, b: DateV)
    requires
        valid_date(a),
        valid_date(b),
        date_le(a, b),
    ensures
        date_measure(a) <= date_measure(b),
{
}

/// Adding a period that moves at least one month or one day forward
/// yields a strictly larger date, in the measure and hence in the order.
pub proof fn lemma_add_strictly_increases(d: DateV, p: PeriodV)
    requires
        valid_date(d),
        p.y >= 0,
        p.m >= 0,
        p.d >= 0,
        12 * p.y + p.m >= 1 || p.d >= 1,
    ensures
        date_measure(add_spec(d, p)) > date_measure(d),
        p.d >= 0 ==> date_lt(d, add_spec(d, p)),
{
    let raw = d.m + p.m - 1;
    lemma_fundamental_div_mod(raw, 12);
    let c = month_carry(d, p);
    assert(12 * c.y + c.m == 12 * d.y + d.m + 12 * p.y + p.m);
    lemma_roll_days_measure(c.y, c.m, c.d);
    if p.d >= 0 {
        lemma_add_valid(d, p);
        let r = add_spec(d, p);
        if !date_lt(d, r) {
            lemma_measure_monotone(r, d);
        }
    }
}

/// The human-readable rendering of a date: year, dash, two-digit month,
/// dash, two-digit day.
pub open spec fn date_text(d: DateV) -> Seq<char> {
    int_text(d.y) + "-"@ + two_text(d.m) + "-"@ + two_text(d.d)
}

/// The human-readable rendering of a period: each component unpadded,
/// suffixed with its unit letter.
pub open spec fn period_text(p: PeriodV) -> Seq<char> {
    int_text(p.y) + "y"@ + int_text(p.m) + "m"@ + int_text(p.d) + "d"@
}

impl Date {
    /// Render as `YYYY-MM-DD` with the month and day zero-padded to two
    /// digits; the year is not padded and may carry a sign.
    pub fn render(&self) -> (r: String)
        ensures
            r@ == date_text(self@),
    {
        let mut s = String::new();
        append_int(&mut s, self.y as i64);
        s.append("-");
        append_two(&mut s, self.m as i64);
        s.append("-");
        append_two(&mut s, self.d as i64);
        proof {
            assert(s@ =~= date_text(self@));
        }
        s
    }
}

impl Period {
    /// Render as `{years}y{months}m{days}d` with no padding.
    pub fn render(&self) -> (r: String)
        ensures
            r@ == period_text(self@),
    {
        let mut s = String::new();
        append_int(&mut s, self.y as i64);
        s.append("y");
        append_int(&mut s, self.m as i64);
        s.append("m");
        append_int(&mut s, self.d as i64);
        s.append("d");
        proof {
            assert(s@ =~= period_text(self@));
        }
        s
    }
}

/// A sample starting date.
pub fn this_date() -> (r: Date)
    ensures
        r == (Date { y: 2019, m: 4, d: 1 }),
{
    Date::new(2019, 4, 1)
}

/// A sample ending date.
pub fn that_date() -> (r: Date)
    ensures
        r == (Date { y: 2020, m: 4, d: 1 }),
{
    Date::new(2020, 4, 1)
}

/// A sample stepping period of one month and five days.
pub fn this_period() -> (r: Period)
    ensures
        r == (Period { y: 0, m: 1, d: 5 }),
{
    Period { y: 0, m: 1, d: 5 }
}

/// A sample date sequence over one year in steps of a month and five days.
pub fn these_dates() -> (r: Dates)
    ensures
        r.now == (Date { y: 2019, m: 4, d: 1 }),
        r.end == (Date { y: 2020, m: 4, d: 1 }),
        r.skip == (Period { y: 0, m: 1, d: 5 }),
        dates_wf(r),
{
    Dates::new(this_date(), that_date(), this_period())
}

} // verus!
