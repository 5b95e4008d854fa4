//! The world outside the player's control: a record of macro-economic
//! indicators that moves one simulated day at a time.

use crate::calendar::is_date;
use crate::calendar::lemma_days_before_month;
use crate::calendar::month_length;
use crate::calendar::GameDate;
use crate::fixed::fixed;
use crate::fixed::Fixed;
use crate::history::after_history;
use crate::history::apply_historical_events;
use vstd::arithmetic::div_mod::lemma_fundamental_div_mod;
use vstd::arithmetic::div_mod::lemma_fundamental_div_mod_converse;
use vstd::prelude::*;

verus! {

#[derive(Clone, Copy, Debug, PartialEq, Eq, Structural)]
pub enum Holiday {
    NewYears,
    ValentinesDay,
    PresidentsDay,
    Easter,
    MemorialDay,
    IndependenceDay,
    LaborDay,
    Halloween,
    Thanksgiving,
    BlackFriday,
    Christmas,
    NewYearsEve,
}

/// What the pseudo-random generator is asked for one draw: the value in
/// `[0, 1)` that belongs to `seed` in the stream with the given frequency,
/// the fractional part of `sin(seed * frequency) * 43758.5453`.
#[derive(Clone, Copy, Debug, PartialEq, Eq, Structural)]
pub struct DrawRequest {
    pub seed: i64,
    pub frequency: Fixed,
}

/// What a day of the simulation needs from outside: the draws of its
/// date, and the cosine of its place in the year.
#[derive(Clone, Copy, Debug, PartialEq, Eq, Structural)]
pub struct DayRequest {
    /// Place of the date in the seasonal cycle, in turns; the cosine of
    /// this angle is asked for.
    pub season_phase: Fixed,
    pub temperature: DrawRequest,
    pub economy: DrawRequest,
    pub trend: DrawRequest,
    pub competitor: DrawRequest,
    pub chaos: DrawRequest,
}

/// The answers to a [`DayRequest`].
#[derive(Clone, Copy, Debug, PartialEq, Eq, Structural)]
pub struct DayInputs {
    /// Cosine of the seasonal angle, in `[-1, 1]`.
    pub season_cycle: Fixed,
    /// Draws in `[0, 1)`.
    pub temperature_draw: Fixed,
    pub economy_draw: Fixed,
    pub trend_draw: Fixed,
    pub competitor_draw: Fixed,
    pub chaos_draw: Fixed,
}

impl DayInputs {
    /// The answers lie where the generator and the cosine put them: the
    /// cycle in `[-1, 1]`, each draw in `[0, 1)`.
    pub open spec fn in_range(self) -> bool {
        &&& -1_000_000 <= self.season_cycle@ <= 1_000_000
        &&& 0 <= self.temperature_draw@ < 1_000_000
        &&& 0 <= self.economy_draw@ < 1_000_000
        &&& 0 <= self.trend_draw@ < 1_000_000
        &&& 0 <= self.competitor_draw@ < 1_000_000
        &&& 0 <= self.chaos_draw@ < 1_000_000
    }
}

/// The current state of the world.
#[derive(Clone, Copy, Debug, PartialEq, Eq, Structural)]
pub struct WorldState {
    /// Current game date.
    pub date: GameDate,
    /// How many real seconds equal one game day.
    pub time_scale: Fixed,
    /// Real seconds not yet turned into game days.
    pub day_accumulator: Fixed,
    /// Current temperature in Fahrenheit.
    pub temperature: Fixed,
    /// Base temperature of the season, around which the temperature moves.
    pub seasonal_base_temp: Fixed,
    /// The day's departure from the seasonal base.
    pub temp_variance: Fixed,
    /// World population.
    pub global_population: Fixed,
    /// Factor by which the population grows each day.
    pub population_growth_rate: Fixed,
    /// Consumer confidence index; 1.0 is neutral.
    pub consumer_confidence: Fixed,
    pub unemployment_rate: Fixed,
    pub inflation_rate: Fixed,
    /// Stock market sentiment; 0.0 is neutral.
    pub market_sentiment: Fixed,
    /// How much Things are in vogue; 1.0 is neutral.
    pub trend_factor: Fixed,
    pub viral_coefficient: Fixed,
    pub media_buzz: Fixed,
    /// How aggressive competitors are being.
    pub competitor_pressure: Fixed,
    /// 0.0 for an empty market, 1.0 for a full one.
    pub market_saturation: Fixed,
    pub days_to_christmas: i32,
    pub is_weekend: bool,
    pub current_holiday: Option<Holiday>,
    /// Day of week (0 = Sunday).
    pub day_of_week: u8,
    /// The day's pseudo-random draw for the chaos factor, in `[0, 1)`.
    pub chaos_draw: Fixed,
}

/// The holiday that falls on a day of the given month, day and weekday
/// (0 = Sunday). Holidays with a fixed date come first; the others are the
/// given weekday within a week of the month. Easter is never found.
pub open spec fn holiday_on(month: int, day: int, weekday: int) -> Option<Holiday> {
    if month == 1 && day == 1 {
        Some(Holiday::NewYears)
    } else if month == 2 && day == 14 {
        Some(Holiday::ValentinesDay)
    } else if month == 7 && day == 4 {
        Some(Holiday::IndependenceDay)
    } else if month == 10 && day == 31 {
        Some(Holiday::Halloween)
    } else if month == 12 && day == 25 {
        Some(Holiday::Christmas)
    } else if month == 12 && day == 31 {
        Some(Holiday::NewYearsEve)
    } else if month == 2 && 15 <= day <= 21 && weekday == 1 {
        Some(Holiday::PresidentsDay)
    } else if month == 5 && 25 <= day <= 31 && weekday == 1 {
        Some(Holiday::MemorialDay)
    } else if month == 9 && 1 <= day <= 7 && weekday == 1 {
        Some(Holiday::LaborDay)
    } else if month == 11 && 22 <= day <= 28 && weekday == 4 {
        Some(Holiday::Thanksgiving)
    } else if month == 11 && 23 <= day <= 29 && weekday == 5 {
        Some(Holiday::BlackFriday)
    } else {
        None
    }
}

/// Whether `day` is the `n`-th day of its weekday in its month.
pub open spec fn is_nth_of_its_weekday(day: int, n: int) -> bool {
    7 * (n - 1) < day <= 7 * n
}

/// Whether `day` is the last day of its weekday in a month of `length`
/// days.
pub open spec fn is_last_of_its_weekday(day: int, length: int) -> bool {
    day <= length < day + 7
}

/// The floating holidays fall where their names say. On a day of the
/// calendar, Presidents' Day is the third Monday of February, Memorial Day
/// the last Monday of May, Labor Day the first Monday of September,
/// Thanksgiving the fourth Thursday of November, and Black Friday the
/// Friday that follows the fourth Thursday of November. Easter falls on no
/// day.
pub proof fn lemma_holidays_fall_where_named(year: int, month: int, day: int, weekday: int)
    requires
        is_date(year, month, day),
        0 <= weekday <= 6,
    ensures
        holiday_on(month, day, weekday) == Some(Holiday::PresidentsDay) <==> month == 2 && weekday
            == 1 && is_nth_of_its_weekday(day, 3),
        holiday_on(month, day, weekday) == Some(Holiday::MemorialDay) <==> month == 5 && weekday
            == 1 && is_last_of_its_weekday(day, month_length(year, 5)),
        holiday_on(month, day, weekday) == Some(Holiday::LaborDay) <==> month == 9 && weekday == 1
            && is_nth_of_its_weekday(day, 1),
        holiday_on(month, day, weekday) == Some(Holiday::Thanksgiving) <==> month == 11 && weekday
            == 4 && is_nth_of_its_weekday(day, 4),
        holiday_on(month, day, weekday) == Some(Holiday::BlackFriday) <==> month == 11 && weekday
            == 5 && is_nth_of_its_weekday(day - 1, 4),
        holiday_on(month, day, weekday) != Some(Holiday::Easter),
{
}

/// The factor of a holiday on demand; 1.0 where there is none.
pub open spec fn holiday_factor(holiday: Option<Holiday>) -> Fixed {
    match holiday {
        Some(Holiday::BlackFriday) => fixed(3_000_000),
        Some(Holiday::Christmas) => fixed(500_000),
        Some(Holiday::NewYearsEve) => fixed(300_000),
        Some(Holiday::NewYears) => fixed(400_000),
        Some(Holiday::Thanksgiving) => fixed(600_000),
        Some(Holiday::ValentinesDay) => fixed(1_300_000),
        Some(Holiday::IndependenceDay) => fixed(800_000),
        Some(Holiday::Halloween) => fixed(1_200_000),
        Some(Holiday::LaborDay) => fixed(1_400_000),
        Some(Holiday::MemorialDay) => fixed(1_400_000),
        Some(Holiday::PresidentsDay) => fixed(1_400_000),
        Some(Holiday::Easter) => fixed(700_000),
        None => fixed(1_000_000),
    }
}

/// The factor of the weeks before Christmas on demand: from 1.0 thirty
/// days before to just under 3.0 the day before, `1 + 2 * (30 - days) /
/// 30`; 1.0 on any other day.
pub open spec fn christmas_factor(days_to_christmas: int) -> Fixed {
    if 0 < days_to_christmas <= 30 {
        fixed(1_000_000 + (2 * (30 - days_to_christmas) * 1_000_000) / 30)
    } else {
        fixed(1_000_000)
    }
}

/// The factor of the temperature on demand: 0.7 below 20 or above 95
/// degrees, 1.1 strictly between 70 and 80, else 1.0.
pub open spec fn temperature_factor(temperature: Fixed) -> Fixed {
    if temperature@ < 20_000_000 || temperature@ > 95_000_000 {
        fixed(700_000)
    } else if 70_000_000 < temperature@ < 80_000_000 {
        fixed(1_100_000)
    } else {
        fixed(1_000_000)
    }
}

/// `1 + weight * value`.
pub open spec fn one_plus(value: Fixed, weight: Fixed) -> Fixed {
    fixed(1_000_000).sum(value.product(weight))
}

/// `1 - weight * value`.
pub open spec fn one_minus(value: Fixed, weight: Fixed) -> Fixed {
    fixed(1_000_000).difference(value.product(weight))
}

/// A draw from `[0, 1)` carried to the range of the given width around
/// zero: `draw * width - half`, where `half` is half the width.
pub open spec fn centered(draw: Fixed, width: Fixed, half: Fixed) -> Fixed {
    draw.product(width).difference(half)
}

/// The place of a day in the seasonal cycle, in turns: the progress of
/// the year, `(month - 1 + day / 30) / 12`, less 0.04.
pub open spec fn season_phase(month: int, day: int) -> Fixed {
    fixed(((month - 1) * 1_000_000 + (day * 1_000_000) / 30) / 12 - 40_000)
}

/// The seasonal base temperature for the cosine `cycle` of the seasonal
/// angle: `57.5 - cycle * 27.5`, from 30 degrees in winter to 85 in
/// summer.
pub open spec fn seasonal_temp(cycle: Fixed) -> Fixed {
    fixed(57_500_000).difference(cycle.product(fixed(27_500_000)))
}

/// What the day `date` needs from outside. All five draws are seeded by
/// the date; the draws of the economy, the trend and the competitors take
/// the seed moved by 1, 2 and 3.
pub open spec fn request_for(date: GameDate) -> DayRequest {
    let seed = date.seed_value();
    DayRequest {
        season_phase: season_phase(date.month as int, date.day as int),
        temperature: DrawRequest { seed: seed as i64, frequency: fixed(78_233_000) },
        economy: DrawRequest { seed: (seed + 1) as i64, frequency: fixed(45_164_000) },
        trend: DrawRequest { seed: (seed + 2) as i64, frequency: fixed(93_989_000) },
        competitor: DrawRequest { seed: (seed + 3) as i64, frequency: fixed(12_345_000) },
        chaos: DrawRequest { seed: seed as i64, frequency: fixed(12_989_800) },
    }
}

/// What the day `date` needs from outside.
pub fn day_request(date: &GameDate) -> (request: DayRequest)
    ensures
        request == request_for(*date),
{
    let seed = date.seed();
    let month: i64 = date.month as i64;
    let day: i64 = date.day as i64;
    // One year is added before the division and taken off after it, so
    // that a month of 0 divides no negative number.
    let progress: i64 = ((month + 11) * 1_000_000 + (day * 1_000_000) / 30) / 12 - 1_000_000;
    DayRequest {
        season_phase: Fixed { raw: progress - 40_000 },
        temperature: DrawRequest { seed, frequency: Fixed { raw: 78_233_000 } },
        economy: DrawRequest { seed: seed + 1, frequency: Fixed { raw: 45_164_000 } },
        trend: DrawRequest { seed: seed + 2, frequency: Fixed { raw: 93_989_000 } },
        competitor: DrawRequest { seed: seed + 3, frequency: Fixed { raw: 12_345_000 } },
        chaos: DrawRequest { seed, frequency: Fixed { raw: 12_989_800 } },
    }
}

impl Default for WorldState {
    /// The world on 1 January 2012, a Sunday and New Year's Day.
    fn default() -> (world: WorldState)
        ensures
            world == WorldState::initial(),
    {
        WorldState {
            date: GameDate::new(2012, 1, 1),
            time_scale: Fixed { raw: 1_000_000 },
            day_accumulator: Fixed { raw: 0 },
            temperature: Fixed { raw: 35_000_000 },
            seasonal_base_temp: Fixed { raw: 35_000_000 },
            temp_variance: Fixed { raw: 0 },
            global_population: Fixed { raw: 7_000_000_000_000_000 },
            population_growth_rate: Fixed { raw: 1_000_100 },
            consumer_confidence: Fixed { raw: 1_000_000 },
            unemployment_rate: Fixed { raw: 80_000 },
            inflation_rate: Fixed { raw: 20_000 },
            market_sentiment: Fixed { raw: 0 },
            trend_factor: Fixed { raw: 1_000_000 },
            viral_coefficient: Fixed { raw: 10_000 },
            media_buzz: Fixed { raw: 0 },
            competitor_pressure: Fixed { raw: 500_000 },
            market_saturation: Fixed { raw: 300_000 },
            days_to_christmas: 359,
            is_weekend: true,
            current_holiday: Some(Holiday::NewYears),
            day_of_week: 0,
            chaos_draw: Fixed { raw: 500_000 },
        }
    }
}

impl WorldState {
    /// The world on 1 January 2012: one real second to the game day, 35
    /// degrees, seven billion people growing by a hundredth of a percent a
    /// day, neutral confidence, sentiment and trend, 8% unemployment, 2%
    /// inflation, and a chaos draw of one half until the day's own is put
    /// in.
    pub open spec fn initial() -> WorldState {
        WorldState {
            date: GameDate { year: 2012, month: 1, day: 1 },
            time_scale: fixed(1_000_000),
            day_accumulator: fixed(0),
            temperature: fixed(35_000_000),
            seasonal_base_temp: fixed(35_000_000),
            temp_variance: fixed(0),
            global_population: fixed(7_000_000_000_000_000),
            population_growth_rate: fixed(1_000_100),
            consumer_confidence: fixed(1_000_000),
            unemployment_rate: fixed(80_000),
            inflation_rate: fixed(20_000),
            market_sentiment: fixed(0),
            trend_factor: fixed(1_000_000),
            viral_coefficient: fixed(10_000),
            media_buzz: fixed(0),
            competitor_pressure: fixed(500_000),
            market_saturation: fixed(300_000),
            days_to_christmas: 359,
            is_weekend: true,
            current_holiday: Some(Holiday::NewYears),
            day_of_week: 0,
            chaos_draw: fixed(500_000),
        }
    }

    /// The fields that follow from the date are those of the date.
    pub open spec fn calendar_consistent(self) -> bool {
        &&& self.day_of_week == self.date.weekday()
        &&& self.is_weekend == (self.day_of_week == 0 || self.day_of_week == 6)
        &&& self.days_to_christmas == self.date.christmas_distance()
        &&& self.current_holiday == holiday_on(
            self.date.month as int,
            self.date.day as int,
            self.day_of_week as int,
        )
    }

    /// Every indicator that a day's advance clamps lies in its range:
    /// confidence 0.5 to 1.5, sentiment -0.5 to 0.5, unemployment 0.03 to
    /// 0.25, inflation 0.01 to 0.15, trend 0.5 to 2.0, competitor pressure
    /// 0.2 to 0.8.
    pub open spec fn indicators_in_range(self) -> bool {
        &&& 500_000 <= self.consumer_confidence@ <= 1_500_000
        &&& -500_000 <= self.market_sentiment@ <= 500_000
        &&& 30_000 <= self.unemployment_rate@ <= 250_000
        &&& 10_000 <= self.inflation_rate@ <= 150_000
        &&& 500_000 <= self.trend_factor@ <= 2_000_000
        &&& 200_000 <= self.competitor_pressure@ <= 800_000
    }

    /// The day's chaos factor: the chaos draw carried from `[0, 1)` to
    /// `[0.8, 1.2)`.
    pub open spec fn chaos(self) -> Fixed {
        fixed(800_000).sum(self.chaos_draw.product(fixed(400_000)))
    }

    /// The product of all the factors on demand, in their order, before
    /// the floor.
    pub open spec fn demand_product(self) -> Fixed {
        fixed(1_000_000)
            .product(christmas_factor(self.days_to_christmas as int))
            .product(holiday_factor(self.current_holiday))
            .product(if self.is_weekend { fixed(1_300_000) } else { fixed(1_000_000) })
            .product(temperature_factor(self.temperature))
            .product(self.consumer_confidence)
            .product(one_minus(self.unemployment_rate, fixed(500_000)))
            .product(one_plus(self.market_sentiment, fixed(200_000)))
            .product(self.trend_factor)
            .product(one_minus(self.competitor_pressure, fixed(300_000)))
            .product(one_minus(self.market_saturation, fixed(200_000)))
            .product(self.global_population.quotient(fixed(7_000_000_000_000_000)))
    }

    /// The demand modifier: the product of the factors, and never less
    /// than 0.1.
    pub open spec fn demand_modifier(self) -> Fixed {
        self.demand_product().larger(fixed(100_000))
    }

    /// The world with the date moved to the next day and the fields that
    /// follow from the date set anew.
    pub open spec fn with_next_date(self) -> WorldState {
        let date = self.date.next();
        let weekday = date.weekday();
        WorldState {
            date,
            day_of_week: weekday as u8,
            is_weekend: weekday == 0 || weekday == 6,
            days_to_christmas: date.christmas_distance() as i32,
            current_holiday: holiday_on(date.month as int, date.day as int, weekday),
            ..self
        }
    }

    /// The world with the day's weather, its chaos draw, and the
    /// population grown by a day.
    pub open spec fn with_weather(self, inputs: DayInputs) -> WorldState {
        let base = seasonal_temp(inputs.season_cycle);
        let variance = centered(inputs.temperature_draw, fixed(20_000_000), fixed(10_000_000));
        WorldState {
            seasonal_base_temp: base,
            temp_variance: variance,
            temperature: base.sum(variance),
            global_population: self.global_population.product(self.population_growth_rate),
            chaos_draw: inputs.chaos_draw,
            ..self
        }
    }

    /// The world with the day's random walk of confidence, sentiment,
    /// trend and competitor pressure, each held to its range.
    pub open spec fn with_drift(self, inputs: DayInputs) -> WorldState {
        let drift = centered(inputs.economy_draw, fixed(20_000), fixed(10_000));
        let trend_drift = centered(inputs.trend_draw, fixed(100_000), fixed(50_000));
        let competitor_drift = centered(inputs.competitor_draw, fixed(50_000), fixed(25_000));
        WorldState {
            consumer_confidence: self.consumer_confidence.sum(drift).clamped(
                fixed(500_000),
                fixed(1_500_000),
            ),
            market_sentiment: self.market_sentiment.sum(drift.product(fixed(2_000_000))).clamped(
                fixed(-500_000),
                fixed(500_000),
            ),
            trend_factor: self.trend_factor.sum(trend_drift).clamped(
                fixed(500_000),
                fixed(2_000_000),
            ),
            competitor_pressure: self.competitor_pressure.sum(competitor_drift).clamped(
                fixed(200_000),
                fixed(800_000),
            ),
            ..self
        }
    }

    /// The world a day later: the date moves on, the weather and the
    /// population follow, the day's historical event applies, and the
    /// indicators drift.
    pub open spec fn next_day(self, inputs: DayInputs) -> WorldState {
        after_history(self.with_next_date().with_weather(inputs)).with_drift(inputs)
    }

    /// The world after `elapsed` more real seconds, with every whole game
    /// day taken out of the accumulator.
    pub open spec fn after_elapsed(self, elapsed: Fixed) -> WorldState {
        let gathered = self.day_accumulator.sum(elapsed);
        WorldState {
            day_accumulator: fixed(gathered@ - days_due(gathered, self.time_scale) * self.time_scale@),
            ..self
        }
    }

    /// Check what holiday (if any) is today.
    pub fn check_holiday(&self) -> (holiday: Option<Holiday>)
        ensures
            holiday == holiday_on(
                self.date.month as int,
                self.date.day as int,
                self.day_of_week as int,
            ),
            holiday != Some(Holiday::Easter),
    {
        let m = self.date.month;
        let d = self.date.day;
        let w = self.day_of_week;
        if m == 1 && d == 1 {
            Some(Holiday::NewYears)
        } else if m == 2 && d == 14 {
            Some(Holiday::ValentinesDay)
        } else if m == 7 && d == 4 {
            Some(Holiday::IndependenceDay)
        } else if m == 10 && d == 31 {
            Some(Holiday::Halloween)
        } else if m == 12 && d == 25 {
            Some(Holiday::Christmas)
        } else if m == 12 && d == 31 {
            Some(Holiday::NewYearsEve)
        } else if m == 2 && 15 <= d && d <= 21 && w == 1 {
            Some(Holiday::PresidentsDay)
        } else if m == 5 && 25 <= d && d <= 31 && w == 1 {
            Some(Holiday::MemorialDay)
        } else if m == 9 && 1 <= d && d <= 7 && w == 1 {
            Some(Holiday::LaborDay)
        } else if m == 11 && 22 <= d && d <= 28 && w == 4 {
            Some(Holiday::Thanksgiving)
        } else if m == 11 && 23 <= d && d <= 29 && w == 5 {
            Some(Holiday::BlackFriday)
        } else {
            None
        }
    }

    /// Seasonal base temperature for the cosine of the seasonal angle:
    /// coldest in early January, warmest in July.
    pub fn calculate_seasonal_temp(cycle: Fixed) -> (temp: Fixed)
        ensures
            temp == seasonal_temp(cycle),
            -1_000_000 <= cycle@ <= 1_000_000 ==> 30_000_000 <= temp@ <= 85_000_000,
    {
        (Fixed { raw: 57_500_000 }).saturating_sub(cycle.saturating_mul(Fixed { raw: 27_500_000 }))
    }

    /// Get the combined demand modifier from all invisible factors.
    pub fn calculate_demand_modifier(&self) -> (modifier: Fixed)
        ensures
            modifier == self.demand_modifier(),
            modifier@ >= 100_000,
    {
        let one = Fixed { raw: 1_000_000 };
        let mut modifier = one;

        let christmas = if self.days_to_christmas <= 30 && self.days_to_christmas > 0 {
            let ramp: i64 = (2 * (30 - self.days_to_christmas as i64) * 1_000_000) / 30;
            Fixed { raw: 1_000_000 + ramp }
        } else {
            one
        };
        modifier = modifier.saturating_mul(christmas);

        let holiday = match self.current_holiday {
            Some(Holiday::BlackFriday) => Fixed { raw: 3_000_000 },
            Some(Holiday::Christmas) => Fixed { raw: 500_000 },
            Some(Holiday::NewYearsEve) => Fixed { raw: 300_000 },
            Some(Holiday::NewYears) => Fixed { raw: 400_000 },
            Some(Holiday::Thanksgiving) => Fixed { raw: 600_000 },
            Some(Holiday::ValentinesDay) => Fixed { raw: 1_300_000 },
            Some(Holiday::IndependenceDay) => Fixed { raw: 800_000 },
            Some(Holiday::Halloween) => Fixed { raw: 1_200_000 },
            Some(Holiday::LaborDay) | Some(Holiday::MemorialDay) | Some(Holiday::PresidentsDay) => {
                Fixed { raw: 1_400_000 }
            },
            Some(Holiday::Easter) => Fixed { raw: 700_000 },
            None => one,
        };
        modifier = modifier.saturating_mul(holiday);

        let weekend = if self.is_weekend {
            Fixed { raw: 1_300_000 }
        } else {
            one
        };
        modifier = modifier.saturating_mul(weekend);

        let weather = if self.temperature.raw < 20_000_000 || self.temperature.raw > 95_000_000 {
            Fixed { raw: 700_000 }
        } else if self.temperature.raw > 70_000_000 && self.temperature.raw < 80_000_000 {
            Fixed { raw: 1_100_000 }
        } else {
            one
        };
        modifier = modifier.saturating_mul(weather);

        modifier = modifier.saturating_mul(self.consumer_confidence);
        modifier = modifier.saturating_mul(
            one.saturating_sub(self.unemployment_rate.saturating_mul(Fixed { raw: 500_000 })),
        );
        modifier = modifier.saturating_mul(
            one.saturating_add(self.market_sentiment.saturating_mul(Fixed { raw: 200_000 })),
        );
        modifier = modifier.saturating_mul(self.trend_factor);
        modifier = modifier.saturating_mul(
            one.saturating_sub(self.competitor_pressure.saturating_mul(Fixed { raw: 300_000 })),
        );
        modifier = modifier.saturating_mul(
            one.saturating_sub(self.market_saturation.saturating_mul(Fixed { raw: 200_000 })),
        );
        modifier = modifier.saturating_mul(
            self.global_population.saturating_div(Fixed { raw: 7_000_000_000_000_000 }),
        );

        modifier.max(Fixed { raw: 100_000 })
    }

    /// Get a "chaos factor": a pseudo-random daily variance in the economy,
    /// between 0.8 and 1.2.
    pub fn daily_chaos(&self) -> (chaos: Fixed)
        ensures
            chaos == self.chaos(),
            0 <= self.chaos_draw@ < 1_000_000 ==> 800_000 <= chaos@ < 1_200_000,
    {
        (Fixed { raw: 800_000 }).saturating_add(
            self.chaos_draw.saturating_mul(Fixed { raw: 400_000 }),
        )
    }
}

/// Number of whole game days in `gathered` real seconds, at `time_scale`
/// real seconds to the day; none where nothing has been gathered.
pub open spec fn days_due(gathered: Fixed, time_scale: Fixed) -> int
    recommends
        time_scale@ > 0,
{
    if gathered@ >= 0 {
        gathered@ / time_scale@
    } else {
        0
    }
}

/// The world after `days` days, where `answers` gives the answers to each
/// day's request.
pub open spec fn after_days(
    world: WorldState,
    days: nat,
    answers: spec_fn(DayRequest) -> DayInputs,
) -> WorldState
    decreases days,
{
    if days == 0 {
        world
    } else {
        after_days(
            world.next_day(answers(request_for(world.date.next()))),
            (days - 1) as nat,
            answers,
        )
    }
}

/// The world after a frame of `elapsed` real seconds: the time is added,
/// and the world moves on by every whole day that has gathered.
pub open spec fn after_frame(
    world: WorldState,
    elapsed: Fixed,
    answers: spec_fn(DayRequest) -> DayInputs,
) -> WorldState {
    after_days(
        world.after_elapsed(elapsed),
        days_due(world.day_accumulator.sum(elapsed), world.time_scale) as nat,
        answers,
    )
}

/// The world after a run of frames, one for each entry of `frames`.
pub open spec fn after_frames(
    world: WorldState,
    frames: Seq<Fixed>,
    answers: spec_fn(DayRequest) -> DayInputs,
) -> WorldState
    decreases frames.len(),
{
    if frames.len() == 0 {
        world
    } else {
        after_frame(after_frames(world, frames.drop_last(), answers), frames.last(), answers)
    }
}

/// The world starts consistent: 1 January 2012 is a day of the calendar,
/// a Sunday and so part of a weekend, New Year's Day, and 359 days before
/// Christmas, as the fields of the first world say; and its indicators
/// lie in their ranges.
pub proof fn lemma_initial_world_is_consistent()
    ensures
        WorldState::initial().date.valid(),
        WorldState::initial().date.can_advance(),
        WorldState::initial().calendar_consistent(),
        WorldState::initial().indicators_in_range(),
        WorldState::initial().time_scale@ > 0,
{
    lemma_days_before_month(2012);
}

/// The game days that a run of frames owes in all, one frame for each
/// entry of `frames`.
pub open spec fn days_in_frames(world: WorldState, frames: Seq<Fixed>) -> int
    decreases frames.len(),
{
    if frames.len() == 0 {
        0
    } else {
        let before = gathered_over(world, frames.drop_last());
        days_in_frames(world, frames.drop_last()) + days_due(
            before.day_accumulator.sum(frames.last()),
            before.time_scale,
        )
    }
}

/// The world after a run of frames has been added to its accumulator and
/// every whole day taken out.
pub open spec fn gathered_over(world: WorldState, frames: Seq<Fixed>) -> WorldState
    decreases frames.len(),
{
    if frames.len() == 0 {
        world
    } else {
        gathered_over(world, frames.drop_last()).after_elapsed(frames.last())
    }
}

/// The seconds of a run of frames, in millionths.
pub open spec fn frames_time(frames: Seq<Fixed>) -> int
    decreases frames.len(),
{
    if frames.len() == 0 {
        0
    } else {
        frames_time(frames.drop_last()) + frames.last()@
    }
}

/// No day is skipped and none comes twice. A run of frames whose times
/// add up to `total` owes exactly the days, and leaves exactly the time,
/// of one frame of `total` seconds, however long or short the frames are.
/// This holds where no frame runs backwards, the accumulator starts
/// within one day, and the time in all can be held.
pub proof fn lemma_days_conserved(world: WorldState, frames: Seq<Fixed>, total: Fixed)
    requires
        world.time_scale@ > 0,
        0 <= world.day_accumulator@ < world.time_scale@,
        forall|i: int| 0 <= i < frames.len() ==> frames[i]@ >= 0,
        total@ == frames_time(frames),
        world.day_accumulator@ + total@ <= i64::MAX,
    ensures
        days_in_frames(world, frames) == days_due(
            world.day_accumulator.sum(total),
            world.time_scale,
        ),
        gathered_over(world, frames) == world.after_elapsed(total),
    decreases frames.len(),
{
    let scale = world.time_scale@;
    let start = world.day_accumulator@;
    lemma_frames_time_nonnegative(frames);
    if frames.len() == 0 {
        lemma_fundamental_div_mod_converse(start, scale, 0, start);
        assert(world.after_elapsed(total).day_accumulator == world.day_accumulator);
    } else {
        let earlier_frames = frames.drop_last();
        let step = frames.last();
        lemma_frames_time_nonnegative(earlier_frames);
        let earlier = fixed(frames_time(earlier_frames));
        lemma_days_conserved(world, earlier_frames, earlier);
        let before = gathered_over(world, earlier_frames);
        let days = days_in_frames(world, earlier_frames);
        let left = before.day_accumulator@;
        // what was gathered before is so many days and the time left
        let sooner = start + earlier@;
        lemma_fundamental_div_mod(sooner, scale);
        assert(world.day_accumulator.sum(earlier)@ == sooner);
        assert(days == sooner / scale);
        assert(0 <= sooner - days * scale < scale && sooner - days * scale == sooner % scale) by (nonlinear_arith)
            requires
                sooner == scale * (sooner / scale) + sooner % scale,
                0 <= sooner % scale < scale,
                days == sooner / scale,
        ;
        assert(left == sooner - days * scale);
        // the step adds its days to them
        let more = (left + step@) / scale;
        let rest = (left + step@) % scale;
        lemma_fundamental_div_mod(left + step@, scale);
        assert(start + total@ == (days + more) * scale + rest) by (nonlinear_arith)
            requires
                left == (start + earlier@) - days * scale,
                left + step@ == scale * more + rest,
                total@ == earlier@ + step@,
        ;
        lemma_fundamental_div_mod_converse(start + total@, scale, days + more, rest);
        assert(rest == (start + total@) - ((start + total@) / scale) * scale) by (nonlinear_arith)
            requires
                start + total@ == (days + more) * scale + rest,
                (start + total@) / scale == days + more,
        ;
        assert(rest == (left + step@) - more * scale) by (nonlinear_arith)
            requires
                left + step@ == scale * more + rest,
        ;
        assert(before.day_accumulator.sum(step)@ == left + step@);
        assert(world.day_accumulator.sum(total)@ == start + total@);
        assert(before.time_scale == world.time_scale);
        assert(before.after_elapsed(step).day_accumulator@ == rest);
        assert(world.after_elapsed(total).day_accumulator@ == rest);
    }
}

/// The time of a run of frames of which none runs backwards is not
/// negative.
pub proof fn lemma_frames_time_nonnegative(frames: Seq<Fixed>)
    requires
        forall|i: int| 0 <= i < frames.len() ==> frames[i]@ >= 0,
    ensures
        frames_time(frames) >= 0,
    decreases frames.len(),
{
    if frames.len() > 0 {
        lemma_frames_time_nonnegative(frames.drop_last());
    }
}

/// The simulation is deterministic. Two worlds that start alike and are
/// given the same frames are alike after every frame, as long as each
/// day's request is answered alike: the world holds nothing else that
/// could tell them apart.
pub proof fn lemma_same_frames_same_world(
    first: WorldState,
    second: WorldState,
    frames: Seq<Fixed>,
    answers: spec_fn(DayRequest) -> DayInputs,
)
    requires
        first == second,
    ensures
        forall|seen: int|
            0 <= seen <= frames.len() ==> after_frames(first, #[trigger] frames.take(seen), answers)
                == after_frames(second, frames.take(seen), answers),
{
}

/// Adds `elapsed` real seconds to the world's accumulator and takes every
/// whole game day out of it. Returns the number of days taken out: that
/// many times the caller owes the world an `advance_one_day`.
pub fn advance_world_simulation(world: &mut WorldState, elapsed: Fixed) -> (days: u64)
    requires
        old(world).time_scale@ > 0,
    ensures
        *final(world) == old(world).after_elapsed(elapsed),
        days == days_due(old(world).day_accumulator.sum(elapsed), old(world).time_scale),
        old(world).day_accumulator.sum(elapsed)@ >= 0 ==> 0 <= final(world).day_accumulator@
            < old(world).time_scale@,
{
    let gathered = world.day_accumulator.saturating_add(elapsed);
    if gathered.raw >= 0 {
        let scale: i64 = world.time_scale.raw;
        let days: i64 = gathered.raw / scale;
        let rest: i64 = gathered.raw % scale;
        proof {
            lemma_fundamental_div_mod(gathered.raw as int, scale as int);
            assert(rest == gathered.raw - days * scale) by (nonlinear_arith)
                requires
                    gathered.raw == scale * days + rest,
            ;
        }
        world.day_accumulator = Fixed { raw: rest };
        days as u64
    } else {
        world.day_accumulator = gathered;
        0
    }
}

/// Moves the world on by one day, with the answers `inputs` to the
/// request of the day it moves to.
pub fn advance_one_day(world: &mut WorldState, inputs: &DayInputs)
    requires
        old(world).date.valid(),
        old(world).date.can_advance(),
    ensures
        *final(world) == old(world).next_day(*inputs),
        final(world).date.valid(),
        final(world).date.number() == old(world).date.number() + 1,
        final(world).calendar_consistent(),
        final(world).indicators_in_range(),
        inputs.in_range() ==> {
            &&& 30_000_000 <= final(world).seasonal_base_temp@ <= 85_000_000
            &&& -10_000_000 <= final(world).temp_variance@ < 10_000_000
            &&& 20_000_000 <= final(world).temperature@ < 95_000_000
            &&& 800_000 <= final(world).chaos()@ < 1_200_000
        },
{
    // Advance the calendar, and what follows from the date
    world.date.advance();
    world.day_of_week = world.date.day_of_week();
    world.is_weekend = world.day_of_week == 0 || world.day_of_week == 6;
    world.days_to_christmas = world.date.days_until_christmas();
    world.current_holiday = world.check_holiday();

    // Seasonal temperature, and the day's variance of -10 to +10 degrees
    world.seasonal_base_temp = WorldState::calculate_seasonal_temp(inputs.season_cycle);
    world.temp_variance = inputs.temperature_draw.saturating_mul(
        Fixed { raw: 20_000_000 },
    ).saturating_sub(Fixed { raw: 10_000_000 });
    world.temperature = world.seasonal_base_temp.saturating_add(world.temp_variance);

    // Grow population
    world.global_population = world.global_population.saturating_mul(world.population_growth_rate);

    world.chaos_draw = inputs.chaos_draw;

    // Historical events come before the random drift
    let ghost before_history = *world;
    proof {
        if inputs.in_range() {
            let variance = inputs.temperature_draw@ * 20_000_000 / 1_000_000 - 10_000_000;
            assert(before_history.temp_variance@ == variance);
            assert(-10_000_000 <= variance < 10_000_000);
            assert(30_000_000 <= before_history.seasonal_base_temp@ <= 85_000_000);
            assert(before_history.temperature@ == before_history.seasonal_base_temp@ + variance);
            assert(before_history.chaos()@ == 800_000 + inputs.chaos_draw@ * 400_000 / 1_000_000);
        }
    }
    apply_historical_events(world);
    assert(world.temperature == before_history.temperature && world.temp_variance
        == before_history.temp_variance && world.seasonal_base_temp
        == before_history.seasonal_base_temp && world.chaos_draw == before_history.chaos_draw);

    // Drift of the economic indicators (a random walk)
    let drift = inputs.economy_draw.saturating_mul(Fixed { raw: 20_000 }).saturating_sub(
        Fixed { raw: 10_000 },
    );
    world.consumer_confidence = world.consumer_confidence.saturating_add(drift).clamp(
        Fixed { raw: 500_000 },
        Fixed { raw: 1_500_000 },
    );
    world.market_sentiment = world.market_sentiment.saturating_add(
        drift.saturating_mul(Fixed { raw: 2_000_000 }),
    ).clamp(Fixed { raw: -500_000 }, Fixed { raw: 500_000 });

    // The trend drifts more dramatically
    let trend_drift = inputs.trend_draw.saturating_mul(Fixed { raw: 100_000 }).saturating_sub(
        Fixed { raw: 50_000 },
    );
    world.trend_factor = world.trend_factor.saturating_add(trend_drift).clamp(
        Fixed { raw: 500_000 },
        Fixed { raw: 2_000_000 },
    );

    // Competitor pressure ebbs and flows
    let competitor_drift = inputs.competitor_draw.saturating_mul(
        Fixed { raw: 50_000 },
    ).saturating_sub(Fixed { raw: 25_000 });
    world.competitor_pressure = world.competitor_pressure.saturating_add(competitor_drift).clamp(
        Fixed { raw: 200_000 },
        Fixed { raw: 800_000 },
    );
}

} // verus!
