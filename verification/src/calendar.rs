//! The simulation's calendar: proleptic Gregorian dates, one day at a time.
//!
//! The model of a date is its day number, the count of days since the day
//! before 1 January of year 1. Weekdays, days of the year and distances
//! between dates are all stated through it.

use vstd::prelude::*;
use vstd::string::StringExecFns;

verus! {

/// Whether `year` has a 29 February.
pub open spec fn is_leap(year: int) -> bool {
    (year % 4 == 0 && year % 100 != 0) || year % 400 == 0
}

/// Number of days in `year`.
pub open spec fn year_length(year: int) -> int {
    if is_leap(year) {
        366
    } else {
        365
    }
}

/// Number of days in `month` of `year`. A month number outside `1..=12`
/// counts as a month of thirty days.
pub open spec fn month_length(year: int, month: int) -> int {
    if month == 2 {
        if is_leap(year) {
            29
        } else {
            28
        }
    } else if month == 1 || month == 3 || month == 5 || month == 7 || month == 8 || month == 10
        || month == 12 {
        31
    } else {
        30
    }
}

/// Number of days of `year` that lie before the first of `month`.
pub open spec fn days_before_month(year: int, month: int) -> int
    decreases month,
{
    if month <= 1 {
        0
    } else {
        days_before_month(year, month - 1) + month_length(year, month - 1)
    }
}

/// Number of days that lie between the start of year 1 and the start of
/// `year`.
pub open spec fn days_before_year(year: int) -> int {
    let y = year - 1;
    365 * y + y / 4 - y / 100 + y / 400
}

/// The day number of a date: 1 for 1 January of year 1, and one more for
/// every day after it.
pub open spec fn day_number(year: int, month: int, day: int) -> int {
    days_before_year(year) + days_before_month(year, month) + day
}

/// Whether `(year, month, day)` names a day of the calendar.
pub open spec fn is_date(year: int, month: int, day: int) -> bool {
    1 <= month <= 12 && 1 <= day <= month_length(year, month)
}

/// The part of Zeller's congruence that depends on the year: with `k` the
/// year of the century and `j` the century, `k + k/4 + j/4 - 2j`.
pub open spec fn zeller_year_term(y: int) -> int {
    let k = y % 100;
    let j = y / 100;
    k + k / 4 + j / 4 - 2 * j
}

/// Zeller's congruence, turned so that 0 is Sunday. January and February
/// count as months 13 and 14 of the year before.
pub open spec fn zeller(year: int, month: int, day: int) -> int {
    let m = if month < 3 {
        month + 12
    } else {
        month
    };
    let y = if month < 3 {
        year - 1
    } else {
        year
    };
    let h = (day + (13 * (m + 1)) / 5 + zeller_year_term(y)) % 7;
    (h + 6) % 7
}

/// Number used to seed the day's pseudo-random draws.
pub open spec fn date_seed(year: int, month: int, day: int) -> int {
    year * 10000 + month * 100 + day
}

/// The character of the decimal digit `d`.
pub open spec fn digit(d: int) -> char
    recommends
        0 <= d <= 9,
{
    if d == 0 {
        '0'
    } else if d == 1 {
        '1'
    } else if d == 2 {
        '2'
    } else if d == 3 {
        '3'
    } else if d == 4 {
        '4'
    } else if d == 5 {
        '5'
    } else if d == 6 {
        '6'
    } else if d == 7 {
        '7'
    } else if d == 8 {
        '8'
    } else {
        '9'
    }
}

/// The decimal digits of `n`, without leading zeros.
pub open spec fn decimal(n: nat) -> Seq<char>
    decreases n,
{
    if n < 10 {
        seq![digit(n as int)]
    } else {
        decimal(n / 10).push(digit((n % 10) as int))
    }
}

/// The decimal digits of `n`, after a minus sign where `n` is negative.
pub open spec fn signed_decimal(n: int) -> Seq<char> {
    if n < 0 {
        seq!['-'] + decimal((-n) as nat)
    } else {
        decimal(n as nat)
    }
}

/// The three letters of a month; three question marks for a number that
/// names no month.
pub open spec fn month_abbreviation(month: int) -> Seq<char> {
    if month == 1 {
        "Jan"@
    } else if month == 2 {
        "Feb"@
    } else if month == 3 {
        "Mar"@
    } else if month == 4 {
        "Apr"@
    } else if month == 5 {
        "May"@
    } else if month == 6 {
        "Jun"@
    } else if month == 7 {
        "Jul"@
    } else if month == 8 {
        "Aug"@
    } else if month == 9 {
        "Sep"@
    } else if month == 10 {
        "Oct"@
    } else if month == 11 {
        "Nov"@
    } else if month == 12 {
        "Dec"@
    } else {
        "???"@
    }
}

/// A calendar date.
#[derive(Clone, Copy, Debug, PartialEq, Eq, Structural)]
pub struct GameDate {
    pub year: i32,
    /// 1 to 12.
    pub month: u8,
    /// 1 to 31.
    pub day: u8,
}

impl GameDate {
    /// The date names a day of the calendar.
    pub open spec fn valid(self) -> bool {
        is_date(self.year as int, self.month as int, self.day as int)
    }

    /// Days since the day before 1 January of year 1.
    pub open spec fn number(self) -> int {
        day_number(self.year as int, self.month as int, self.day as int)
    }

    /// Day of the week, 0 for Sunday to 6 for Saturday.
    pub open spec fn weekday(self) -> int {
        self.number() % 7
    }

    /// Position of the day in its year, from 1.
    pub open spec fn ordinal(self) -> int {
        days_before_month(self.year as int, self.month as int) + self.day
    }

    /// Days from this date to the first 25 December that is not before it.
    pub open spec fn christmas_distance(self) -> int {
        if self.month == 12 && self.day > 25 {
            day_number(self.year + 1, 12, 25) - self.number()
        } else {
            day_number(self.year as int, 12, 25) - self.number()
        }
    }

    /// The date that `advance` moves to.
    pub open spec fn next(self) -> GameDate {
        if self.day + 1 <= month_length(self.year as int, self.month as int) {
            GameDate { year: self.year, month: self.month, day: (self.day + 1) as u8 }
        } else if self.month + 1 <= 12 {
            GameDate { year: self.year, month: (self.month + 1) as u8, day: 1 }
        } else {
            GameDate { year: (self.year + 1) as i32, month: 1, day: 1 }
        }
    }

    /// The date reached by `n` steps of `next`.
    pub open spec fn after(self, n: nat) -> GameDate
        decreases n,
    {
        if n == 0 {
            self
        } else {
            self.next().after((n - 1) as nat)
        }
    }

    /// `advance` stays within the machine's integers.
    pub open spec fn can_advance(self) -> bool {
        &&& self.day < u8::MAX
        &&& self.month < u8::MAX
        &&& (self.month >= 12 && self.day + 1 > month_length(self.year as int, self.month as int)
            ==> self.year < i32::MAX)
    }

    /// The date as text: month, day and year, as in `Jan 1, 2012`.
    pub open spec fn text(self) -> Seq<char> {
        month_abbreviation(self.month as int) + " "@ + decimal(self.day as nat) + ", "@
            + signed_decimal(self.year as int)
    }

    /// The seed of this date's pseudo-random draws.
    pub open spec fn seed_value(self) -> int {
        date_seed(self.year as int, self.month as int, self.day as int)
    }

    pub fn new(year: i32, month: u8, day: u8) -> (date: GameDate)
        ensures
            date == (GameDate { year, month, day }),
    {
        GameDate { year, month, day }
    }

    /// Whether the date names a day of the calendar.
    pub fn is_valid(&self) -> (ok: bool)
        ensures
            ok == self.valid(),
    {
        1 <= self.month && self.month <= 12 && 1 <= self.day && self.day <= self.days_in_month()
    }

    pub fn is_leap_year(&self) -> (leap: bool)
        ensures
            leap == is_leap(self.year as int),
    {
        leap_year(self.year as i64)
    }

    /// Days in the current month.
    pub fn days_in_month(&self) -> (n: u8)
        ensures
            n == month_length(self.year as int, self.month as int),
            28 <= n <= 31,
    {
        match self.month {
            1 | 3 | 5 | 7 | 8 | 10 | 12 => 31,
            4 | 6 | 9 | 11 => 30,
            2 => if self.is_leap_year() {
                29
            } else {
                28
            },
            _ => 30,
        }
    }

    /// Advance by one day.
    pub fn advance(&mut self)
        requires
            old(self).can_advance(),
        ensures
            *final(self) == old(self).next(),
            old(self).valid() ==> final(self).valid() && final(self).number() == old(self).number()
                + 1,
    {
        proof {
            if self.valid() {
                lemma_next_is_next_day(*self);
            }
        }
        let length = self.days_in_month();
        if self.day + 1 > length {
            self.day = 1;
            if self.month + 1 > 12 {
                self.month = 1;
                self.year = self.year + 1;
            } else {
                self.month = self.month + 1;
            }
        } else {
            self.day = self.day + 1;
        }
    }

    /// Day of year (1-366).
    pub fn day_of_year(&self) -> (n: u16)
        requires
            self.valid(),
        ensures
            n == self.ordinal(),
            1 <= n <= year_length(self.year as int),
    {
        proof {
            lemma_days_before_month(self.year as int);
        }
        let before: u16 = match self.month {
            1 => 0,
            2 => 31,
            3 => 59,
            4 => 90,
            5 => 120,
            6 => 151,
            7 => 181,
            8 => 212,
            9 => 243,
            10 => 273,
            11 => 304,
            _ => 334,
        };
        let mut n: u16 = before + self.day as u16;
        if self.month > 2 && self.is_leap_year() {
            n = n + 1;
        }
        n
    }

    /// Days until December 25th: 0 on the day itself, and counted to next
    /// year's from 26 December on.
    pub fn days_until_christmas(&self) -> (n: i32)
        requires
            self.valid(),
        ensures
            n == self.christmas_distance(),
            0 <= n <= 365,
    {
        proof {
            lemma_days_before_month(self.year as int);
            lemma_days_before_month(self.year + 1);
            lemma_year_step(self.year as int);
        }
        let today: i32 = self.day_of_year() as i32;
        if self.month == 12 && self.day > 25 {
            let this_year: i32 = if self.is_leap_year() {
                366
            } else {
                365
            };
            let christmas: i32 = if leap_year(self.year as i64 + 1) {
                360
            } else {
                359
            };
            this_year - today + christmas
        } else {
            let christmas: i32 = if self.is_leap_year() {
                360
            } else {
                359
            };
            christmas - today
        }
    }

    /// Day of week (0 = Sunday), by Zeller's congruence.
    pub fn day_of_week(&self) -> (weekday: u8)
        ensures
            weekday == zeller(self.year as int, self.month as int, self.day as int),
            weekday < 7,
            self.valid() ==> weekday == self.weekday(),
    {
        proof {
            if self.valid() {
                lemma_zeller_is_weekday(self.year as int, self.month as int, self.day as int);
            }
        }
        // The weekdays repeat every 400 years, so the year is first moved
        // into the positive numbers by a multiple of 400.
        let mut y: i64 = self.year as i64 + 2_147_484_000;
        let mut m: i64 = self.month as i64;
        if m < 3 {
            m = m + 12;
            y = y - 1;
        }
        let q: i64 = self.day as i64;
        let k: i64 = y % 100;
        let j: i64 = y / 100;
        let t: i64 = k + k / 4 + j / 4 + 5 * j;
        let sum: i64 = q + (13 * (m + 1)) / 5 + t;
        proof {
            let year = y - 2_147_484_000;
            lemma_zeller_year_term_shifted(year, t as int);
            lemma_multiple_of_seven_vanishes(
                q + (13 * (m + 1)) / 5 + zeller_year_term(year),
                16_106_130 + year / 100,
            );
        }
        let h: i64 = sum % 7;
        ((h + 6) % 7) as u8
    }

    /// The date as text: month, day and year, as in `Jan 1, 2012`.
    pub fn format(&self) -> (text: String)
        ensures
            text@ == self.text(),
    {
        let month_name = match self.month {
            1 => "Jan",
            2 => "Feb",
            3 => "Mar",
            4 => "Apr",
            5 => "May",
            6 => "Jun",
            7 => "Jul",
            8 => "Aug",
            9 => "Sep",
            10 => "Oct",
            11 => "Nov",
            12 => "Dec",
            _ => "???",
        };
        let mut text = String::from_str(month_name);
        text.append(" ");
        push_decimal(&mut text, self.day as u64);
        text.append(", ");
        if self.year < 0 {
            text.append("-");
            proof {
                reveal_strlit("-");
                assert("-"@ =~= seq!['-']);
            }
            push_decimal(&mut text, (-(self.year as i64)) as u64);
        } else {
            push_decimal(&mut text, self.year as u64);
        }
        assert(text@ =~= self.text());
        text
    }

    /// The number that seeds this date's pseudo-random draws:
    /// `year * 10000 + month * 100 + day`.
    pub fn seed(&self) -> (seed: i64)
        ensures
            seed == self.seed_value(),
    {
        self.year as i64 * 10000 + self.month as i64 * 100 + self.day as i64
    }
}

/// The text of one decimal digit.
fn digit_text(d: u64) -> (text: &'static str)
    requires
        d <= 9,
    ensures
        text@ == seq![digit(d as int)],
{
    proof {
        reveal_strlit("0");
        reveal_strlit("1");
        reveal_strlit("2");
        reveal_strlit("3");
        reveal_strlit("4");
        reveal_strlit("5");
        reveal_strlit("6");
        reveal_strlit("7");
        reveal_strlit("8");
        reveal_strlit("9");
    }
    let text = match d {
        0 => "0",
        1 => "1",
        2 => "2",
        3 => "3",
        4 => "4",
        5 => "5",
        6 => "6",
        7 => "7",
        8 => "8",
        _ => "9",
    };
    assert(text@ =~= seq![digit(d as int)]);
    text
}

/// Puts the decimal digits of `n` at the end of `text`.
fn push_decimal(text: &mut String, n: u64)
    ensures
        final(text)@ == old(text)@ + decimal(n as nat),
    decreases n,
{
    if n >= 10 {
        push_decimal(text, n / 10);
    }
    text.append(digit_text(n % 10));
    assert(text@ =~= old(text)@ + decimal(n as nat));
}

/// Whether `year` is a leap year.
fn leap_year(year: i64) -> (leap: bool)
    requires
        -0x1_0000_0000 <= year <= 0x1_0000_0000,
    ensures
        leap == is_leap(year as int),
{
    let a: i64 = if year < 0 {
        -year
    } else {
        year
    };
    (a % 4 == 0 && a % 100 != 0) || a % 400 == 0
}

/// The days before each month, written out.
pub proof fn lemma_days_before_month(year: int)
    ensures
        days_before_month(year, 1) == 0,
        days_before_month(year, 2) == 31,
        days_before_month(year, 3) == 59 + year_length(year) - 365,
        days_before_month(year, 4) == 90 + year_length(year) - 365,
        days_before_month(year, 5) == 120 + year_length(year) - 365,
        days_before_month(year, 6) == 151 + year_length(year) - 365,
        days_before_month(year, 7) == 181 + year_length(year) - 365,
        days_before_month(year, 8) == 212 + year_length(year) - 365,
        days_before_month(year, 9) == 243 + year_length(year) - 365,
        days_before_month(year, 10) == 273 + year_length(year) - 365,
        days_before_month(year, 11) == 304 + year_length(year) - 365,
        days_before_month(year, 12) == 334 + year_length(year) - 365,
        days_before_month(year, 13) == year_length(year),
{
    reveal_with_fuel(days_before_month, 14);
}

/// A year is as long as the distance between its start and the next
/// year's.
pub proof fn lemma_year_step(year: int)
    ensures
        days_before_year(year + 1) == days_before_year(year) + year_length(year),
{
}

/// The day after a valid date is a valid date, and its day number is one
/// more.
pub proof fn lemma_next_is_next_day(date: GameDate)
    requires
        date.valid(),
        date.can_advance(),
    ensures
        date.next().valid(),
        date.next().number() == date.number() + 1,
{
    lemma_days_before_month(date.year as int);
    lemma_days_before_month(date.year + 1);
    lemma_year_step(date.year as int);
}

/// The day after a valid date falls on the next day of the week.
pub proof fn lemma_weekday_follows(date: GameDate)
    requires
        date.valid(),
        date.can_advance(),
    ensures
        date.next().weekday() == (date.weekday() + 1) % 7,
{
    lemma_next_is_next_day(date);
}

/// Later years start later.
pub proof fn lemma_years_in_order(earlier: int, later: int)
    requires
        earlier <= later,
    ensures
        days_before_year(earlier) <= days_before_year(later),
{
}

/// The day number of a valid date lies in its year.
pub proof fn lemma_number_in_year(date: GameDate)
    requires
        date.valid(),
    ensures
        days_before_year(date.year as int) < date.number() <= days_before_year(date.year + 1),
{
    lemma_days_before_month(date.year as int);
    lemma_year_step(date.year as int);
}

/// Two valid dates with the same day number are the same date.
pub proof fn lemma_number_names_one_date(a: GameDate, b: GameDate)
    requires
        a.valid(),
        b.valid(),
        a.number() == b.number(),
    ensures
        a == b,
{
    lemma_number_in_year(a);
    lemma_number_in_year(b);
    if a.year < b.year {
        lemma_years_in_order(a.year + 1, b.year as int);
    } else if b.year < a.year {
        lemma_years_in_order(b.year + 1, a.year as int);
    } else {
        lemma_days_before_month(a.year as int);
    }
}

/// The date `n` days after a valid date is valid, and its day number is
/// `n` more, as long as the calendar has that many days left.
pub proof fn lemma_after_adds_days(date: GameDate, n: nat)
    requires
        date.valid(),
        date.number() + n <= day_number(i32::MAX as int, 12, 31),
    ensures
        date.after(n).valid(),
        date.after(n).number() == date.number() + n,
    decreases n,
{
    if n > 0 {
        let last = GameDate { year: i32::MAX, month: 12, day: 31 };
        lemma_days_before_month(i32::MAX as int);
        if date == last {
            assert(false);
        }
        lemma_next_is_next_day(date);
        lemma_after_adds_days(date.next(), (n - 1) as nat);
    }
}

/// Number of days from a date to the same day of the next year: the
/// length of the year that the 29 February between them, if there is one,
/// lies in.
pub open spec fn days_in_year_from(date: GameDate) -> nat {
    if date.month <= 2 {
        year_length(date.year as int) as nat
    } else {
        year_length(date.year + 1) as nat
    }
}

/// A year of days leads to the same day of the next year: 366 steps
/// where a 29 February lies on the way, else 365. The 29 February itself
/// has no such day in the next year and is left out.
pub proof fn lemma_year_round_trip(date: GameDate)
    requires
        date.valid(),
        !(date.month == 2 && date.day == 29),
        date.year < i32::MAX,
    ensures
        date.after(days_in_year_from(date)) == (GameDate {
            year: (date.year + 1) as i32,
            month: date.month,
            day: date.day,
        }),
        days_in_year_from(date) == 365 || days_in_year_from(date) == 366,
{
    let n = days_in_year_from(date);
    let target = GameDate { year: (date.year + 1) as i32, month: date.month, day: date.day };
    lemma_days_before_month(date.year as int);
    lemma_days_before_month(date.year + 1);
    lemma_year_step(date.year as int);
    assert(target.valid());
    assert(target.number() == date.number() + n);
    lemma_number_in_year(target);
    lemma_years_in_order(target.year + 1, i32::MAX + 1);
    lemma_days_before_month(i32::MAX as int);
    lemma_year_step(i32::MAX as int);
    lemma_after_adds_days(date, n);
    lemma_number_names_one_date(date.after(n), target);
}

/// Adding a multiple of 7 leaves the remainder modulo 7 as it is.
proof fn lemma_multiple_of_seven_vanishes(x: int, w: int)
    ensures
        (x + 7 * w) % 7 == x % 7,
{
}

/// The year term of Zeller's congruence, computed on a year moved by
/// 5 368 710 cycles of 400 years and with `5j` in place of `-2j`, differs
/// from the term of the year itself by a multiple of 7.
proof fn lemma_zeller_year_term_shifted(y: int, t: int)
    requires
        t == {
            let moved = y + 2_147_484_000;
            let k = moved % 100;
            let j = moved / 100;
            k + k / 4 + j / 4 + 5 * j
        },
    ensures
        t == zeller_year_term(y) + 7 * (16_106_130 + y / 100),
{
    let moved = y + 2_147_484_000;
    assert(moved % 100 == y % 100);
    assert(moved / 100 == y / 100 + 21_474_840);
    assert((moved / 100) / 4 == (y / 100) / 4 + 5_368_710);
}

/// The days in the `y` years after the start of year 1 and the year term
/// of Zeller's congruence differ by a multiple of 7.
proof fn lemma_zeller_year_term(y: int)
    ensures
        365 * y + y / 4 - y / 100 + y / 400 == zeller_year_term(y) + 7 * (5218 * (y / 100) + 52 * (y
            % 100)),
{
    let k = y % 100;
    let j = y / 100;
    assert(y == 100 * j + k);
    assert(y / 4 == 25 * j + k / 4);
    assert(y / 400 == j / 4);
}

/// The last step of Zeller's congruence: where the month term `a` and the
/// days before the month `b` satisfy `a + 6 = b` modulo 7, the congruence
/// on `day + a + z` agrees with the remainder of `z + 7c + b + day`.
proof fn lemma_zeller_last_step(z: int, c: int, day: int, a: int, b: int)
    requires
        (a + 6 - b) % 7 == 0,
    ensures
        (((day + a + z) % 7) + 6) % 7 == (z + 7 * c + b + day) % 7,
{
}

/// For a day of the calendar, Zeller's congruence gives the day number
/// modulo 7.
pub proof fn lemma_zeller_is_weekday(year: int, month: int, day: int)
    requires
        is_date(year, month, day),
    ensures
        zeller(year, month, day) == day_number(year, month, day) % 7,
{
    lemma_days_before_month(year);
    if month >= 3 {
        lemma_zeller_year_term(year);
        lemma_year_step(year);
        let c = 5218 * (year / 100) + 52 * (year % 100);
        let z = zeller_year_term(year);
        let a = (13 * (month + 1)) / 5;
        let b = days_before_month(year, month) - year_length(year);
        assert(day_number(year, month, day) == z + 7 * c + b + day);
        lemma_zeller_last_step(z, c, day, a, b);
    } else {
        lemma_zeller_year_term(year - 1);
        let c = 5218 * ((year - 1) / 100) + 52 * ((year - 1) % 100);
        let z = zeller_year_term(year - 1);
        let a = (13 * (month + 13)) / 5;
        let b = days_before_month(year, month);
        assert(day_number(year, month, day) == z + 7 * c + b + day);
        lemma_zeller_last_step(z, c, day, a, b);
    }
}

} // verus!
