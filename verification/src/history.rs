//! The timeline of historical events, 2012 to 2026 and beyond.
//!
//! The timeline is an ordered table. Each entry names a range of days and
//! what happens to the economic indicators on each of those days. On a
//! given day the first entry whose range holds the day applies, and no
//! other: an entry for a single day that lies inside a longer range stands
//! before that range.

use crate::calendar::GameDate;
use crate::economy::WorldState;
use crate::fixed::fixed;
use crate::fixed::Fixed;
use vstd::prelude::*;

verus! {

/// Number of entries of the timeline.
pub const TIMELINE_LEN: usize = 43;

/// The timeline. A day is written as `year * 10000 + month * 100 + day`,
/// amounts in millionths; a zero in an amount's column leaves the
/// indicator as it is. The columns are: first day, last day, factor on
/// consumer confidence, new consumer confidence, shift of market sentiment,
/// new unemployment rate, new inflation rate, factor on the trend, and
/// whether the trend swings with the day's chaos (1) or not (0).
pub const TIMELINE: [[i64; 9]; 43] = [
    // 2012: election day, which lies inside the days of the hurricane
    [2012_11_06, 2012_11_06, 0, 0, 50_000, 0, 0, 0, 0],
    [2012_10_29, 2012_11_07, 850_000, 0, -100_000, 0, 0, 0, 0],
    // 2013: marathon bombing, government shutdown
    [2013_04_15, 2013_04_22, 920_000, 0, 0, 0, 0, 0, 0],
    [2013_10_01, 2013_10_16, 900_000, 0, -150_000, 0, 0, 0, 0],
    // 2014: annexation of Crimea, protests
    [2014_03_18, 2014_03_31, 0, 0, -100_000, 0, 0, 0, 0],
    [2014_08_09, 2014_08_31, 950_000, 0, 0, 0, 0, 0, 0],
    // 2015: marriage ruling, Paris attacks
    [2015_06_26, 2015_06_30, 0, 0, 0, 0, 0, 1_050_000, 0],
    [2015_11_13, 2015_11_20, 900_000, 0, -100_000, 0, 0, 0, 0],
    // 2016: referendum, election
    [2016_06_23, 2016_06_30, 920_000, 0, -200_000, 0, 0, 0, 0],
    [2016_11_08, 2016_11_15, 0, 0, 100_000, 0, 0, 1_100_000, 0],
    // 2017: inauguration, two hurricanes, coin mania
    [2017_01_20, 2017_01_20, 0, 0, 0, 0, 0, 1_050_000, 0],
    [2017_08_25, 2017_09_05, 880_000, 0, 0, 0, 0, 0, 0],
    [2017_09_20, 2017_09_30, 900_000, 0, 0, 0, 0, 0, 0],
    [2017_12_01, 2017_12_20, 0, 0, 100_000, 0, 0, 1_150_000, 0],
    // 2018: coin crash, trade war, midterms
    [2018_01_15, 2018_02_10, 0, 0, -150_000, 0, 0, 0, 0],
    [2018_03_22, 2018_04_15, 950_000, 0, -100_000, 0, 0, 0, 0],
    [2018_11_06, 2018_11_10, 0, 0, -50_000, 0, 0, 0, 0],
    // 2019: shutdown, impeachment vote
    [2019_01_01, 2019_01_25, 920_000, 0, 0, 0, 0, 0, 0],
    [2019_12_18, 2019_12_31, 0, 0, -50_000, 0, 0, 0, 0],
    // 2020: pandemic onset, protests, lockdowns, slow recovery, election,
    // vaccine
    [2020_03_11, 2020_03_31, 600_000, 0, -400_000, 150_000, 0, 0, 0],
    [2020_05_25, 2020_06_15, 0, 425_000, 0, 0, 0, 0, 0],
    [2020_04_01, 2020_05_24, 0, 500_000, 0, 140_000, 0, 0, 0],
    [2020_06_16, 2020_08_31, 0, 700_000, 0, 110_000, 0, 0, 0],
    [2020_11_03, 2020_11_10, 0, 0, 150_000, 0, 0, 0, 0],
    [2020_12_11, 2020_12_31, 1_100_000, 0, 200_000, 0, 0, 0, 0],
    // 2021: riot, inauguration, stimulus, meme stocks, recovery, inflation
    // worries
    [2021_01_06, 2021_01_10, 900_000, 0, -100_000, 0, 0, 0, 0],
    [2021_01_20, 2021_01_20, 0, 0, 50_000, 0, 0, 0, 0],
    [2021_03_12, 2021_03_31, 1_150_000, 0, 0, 0, 0, 1_100_000, 0],
    [2021_01_25, 2021_01_31, 0, 0, 150_000, 0, 0, 1_200_000, 0],
    [2021_04_01, 2021_06_30, 0, 1_100_000, 0, 60_000, 0, 0, 0],
    [2021_10_01, 2021_12_31, 950_000, 0, 0, 0, 70_000, 0, 0],
    // 2022: invasion, inflation peak, royal funeral, midterms
    [2022_02_24, 2022_03_15, 850_000, 0, -200_000, 0, 85_000, 0, 0],
    [2022_06_01, 2022_07_31, 900_000, 0, 0, 0, 91_000, 0, 0],
    [2022_09_08, 2022_09_19, 0, 0, 0, 0, 0, 950_000, 0],
    [2022_11_08, 2022_11_12, 0, 0, 50_000, 0, 0, 0, 0],
    // 2023: banking crisis, which lies inside the months of the AI boom;
    // inflation cooling
    [2023_03_10, 2023_03_20, 850_000, 0, -250_000, 0, 0, 0, 0],
    [2023_01_01, 2023_05_31, 0, 0, 0, 0, 0, 1_050_000, 0],
    [2023_10_01, 2023_12_31, 1_050_000, 0, 0, 0, 35_000, 0, 0],
    // 2024: election year
    [2024_06_01, 2024_10_31, 0, 0, -50_000, 0, 0, 0, 0],
    [2024_11_05, 2024_11_12, 0, 0, 150_000, 0, 0, 1_100_000, 0],
    // 2025: inauguration, tariffs
    [2025_01_20, 2025_01_20, 0, 0, 0, 0, 0, 1_050_000, 0],
    [2025_02_01, 2025_03_31, 950_000, 0, -100_000, 0, 0, 0, 0],
    // from 19 February 2026 on: the unknown future
    [2026_02_19, 0x7fff_ffff_ffff_ffff, 0, 0, 0, 0, 0, 0, 1],
];

/// What an event does to one indicator on each of its days.
#[derive(Clone, Copy, Debug, PartialEq, Eq, Structural)]
pub enum Adjustment {
    /// The indicator stays as it is.
    Keep,
    /// The indicator is multiplied by the factor.
    Scale(Fixed),
    /// The amount is added to the indicator.
    Shift(Fixed),
    /// The indicator becomes the value.
    Replace(Fixed),
    /// The indicator is multiplied by `1 + (chaos - 1) * 2`, for the day's
    /// chaos factor.
    Swing,
}

impl Adjustment {
    /// The indicator after the adjustment, on a day with the given chaos
    /// factor.
    pub open spec fn applied(self, value: Fixed, chaos: Fixed) -> Fixed {
        match self {
            Adjustment::Keep => value,
            Adjustment::Scale(factor) => value.product(factor),
            Adjustment::Shift(amount) => value.sum(amount),
            Adjustment::Replace(target) => target,
            Adjustment::Swing => value.product(swing_factor(chaos)),
        }
    }

    /// The indicator after the adjustment, on a day with the given chaos
    /// factor.
    pub fn apply(&self, value: Fixed, chaos: Fixed) -> (r: Fixed)
        ensures
            r == self.applied(value, chaos),
    {
        match self {
            Adjustment::Keep => value,
            Adjustment::Scale(factor) => value.saturating_mul(*factor),
            Adjustment::Shift(amount) => value.saturating_add(*amount),
            Adjustment::Replace(target) => *target,
            Adjustment::Swing => {
                let one = Fixed { raw: 1_000_000 };
                let two = Fixed { raw: 2_000_000 };
                let factor = one.saturating_add(chaos.saturating_sub(one).saturating_mul(two));
                value.saturating_mul(factor)
            },
        }
    }
}

/// The factor of the unknown future: `1 + (chaos - 1) * 2`.
pub open spec fn swing_factor(chaos: Fixed) -> Fixed {
    fixed(1_000_000).sum(chaos.difference(fixed(1_000_000)).product(fixed(2_000_000)))
}

/// One entry of the timeline.
#[derive(Clone, Copy, Debug, PartialEq, Eq, Structural)]
pub struct HistoricalEvent {
    /// First day of the event, as `year * 10000 + month * 100 + day`.
    pub first_day: i64,
    /// Last day of the event, written likewise.
    pub last_day: i64,
    pub confidence: Adjustment,
    pub sentiment: Adjustment,
    pub unemployment: Adjustment,
    pub inflation: Adjustment,
    pub trend: Adjustment,
}

/// The adjustment that two columns of the timeline stand for: the value
/// where one is given, else the factor where one is given, else none.
pub open spec fn scale_or_set(factor: i64, target: i64) -> Adjustment {
    if target != 0 {
        Adjustment::Replace(Fixed { raw: target })
    } else if factor != 0 {
        Adjustment::Scale(Fixed { raw: factor })
    } else {
        Adjustment::Keep
    }
}

/// The event that a row of the timeline stands for.
pub open spec fn event_of_row(row: [i64; 9]) -> HistoricalEvent {
    HistoricalEvent {
        first_day: row[0],
        last_day: row[1],
        confidence: scale_or_set(row[2], row[3]),
        sentiment: if row[4] != 0 {
            Adjustment::Shift(Fixed { raw: row[4] })
        } else {
            Adjustment::Keep
        },
        unemployment: scale_or_set(0, row[5]),
        inflation: scale_or_set(0, row[6]),
        trend: if row[8] != 0 {
            Adjustment::Swing
        } else {
            scale_or_set(row[7], 0)
        },
    }
}

/// Entry `index` of the timeline.
pub open spec fn timeline_entry(index: int) -> HistoricalEvent
    recommends
        0 <= index < TIMELINE_LEN,
{
    event_of_row(TIMELINE[index])
}

/// The first entry of the timeline, from entry `from` on, whose days hold
/// the day `key`.
pub open spec fn first_covering(key: int, from: nat) -> Option<HistoricalEvent>
    decreases TIMELINE_LEN - from,
{
    if from >= TIMELINE_LEN {
        None
    } else if timeline_entry(from as int).covers(key) {
        Some(timeline_entry(from as int))
    } else {
        first_covering(key, from + 1)
    }
}

/// The event of the day `date`, if it has one.
pub open spec fn event_on(date: GameDate) -> Option<HistoricalEvent> {
    first_covering(date.seed_value(), 0)
}

/// The indicators that historical events move, each held to its range:
/// confidence 0.3 to 1.8, sentiment -0.8 to 0.8, unemployment 0.03 to
/// 0.25, inflation 0.01 to 0.15.
pub open spec fn held_to_ranges(world: WorldState) -> WorldState {
    WorldState {
        consumer_confidence: world.consumer_confidence.clamped(fixed(300_000), fixed(1_800_000)),
        market_sentiment: world.market_sentiment.clamped(fixed(-800_000), fixed(800_000)),
        unemployment_rate: world.unemployment_rate.clamped(fixed(30_000), fixed(250_000)),
        inflation_rate: world.inflation_rate.clamped(fixed(10_000), fixed(150_000)),
        ..world
    }
}

/// The world after the historical events of its date: the day's event, if
/// there is one, moves the indicators, which are then held to their
/// ranges. The trend is not held to any.
pub open spec fn after_history(world: WorldState) -> WorldState {
    held_to_ranges(
        match event_on(world.date) {
            Some(event) => event.applied(world),
            None => world,
        },
    )
}

impl HistoricalEvent {
    /// Whether the day `key` is one of the event's days.
    pub open spec fn covers(self, key: int) -> bool {
        self.first_day <= key <= self.last_day
    }

    /// The world with the event's adjustments made, before any clamp.
    pub open spec fn applied(self, world: WorldState) -> WorldState {
        let chaos = world.chaos();
        WorldState {
            consumer_confidence: self.confidence.applied(world.consumer_confidence, chaos),
            market_sentiment: self.sentiment.applied(world.market_sentiment, chaos),
            unemployment_rate: self.unemployment.applied(world.unemployment_rate, chaos),
            inflation_rate: self.inflation.applied(world.inflation_rate, chaos),
            trend_factor: self.trend.applied(world.trend_factor, chaos),
            ..world
        }
    }

    /// Entry `index` of the timeline.
    pub fn at(index: usize) -> (event: HistoricalEvent)
        requires
            index < TIMELINE_LEN,
        ensures
            event == timeline_entry(index as int),
    {
        let row = TIMELINE[index];
        HistoricalEvent {
            first_day: row[0],
            last_day: row[1],
            confidence: adjustment(row[2], row[3]),
            sentiment: if row[4] != 0 {
                Adjustment::Shift(Fixed { raw: row[4] })
            } else {
                Adjustment::Keep
            },
            unemployment: adjustment(0, row[5]),
            inflation: adjustment(0, row[6]),
            trend: if row[8] != 0 {
                Adjustment::Swing
            } else {
                adjustment(row[7], 0)
            },
        }
    }

    /// The event of the day `date`, if it has one: the first entry of the
    /// timeline whose days hold the date.
    pub fn on(date: &GameDate) -> (found: Option<HistoricalEvent>)
        ensures
            found == event_on(*date),
    {
        let key = date.seed();
        let mut index: usize = 0;
        while index < TIMELINE_LEN
            invariant
                index <= TIMELINE_LEN,
                key == date.seed_value(),
                event_on(*date) == first_covering(key as int, index as nat),
            decreases TIMELINE_LEN - index,
        {
            let event = HistoricalEvent::at(index);
            if event.first_day <= key && key <= event.last_day {
                return Some(event);
            }
            index = index + 1;
        }
        None
    }

    /// Makes the event's adjustments to the world's indicators, without
    /// any clamp.
    pub fn apply(&self, world: &mut WorldState)
        ensures
            *final(world) == self.applied(*old(world)),
    {
        let chaos = world.daily_chaos();
        world.consumer_confidence = self.confidence.apply(world.consumer_confidence, chaos);
        world.market_sentiment = self.sentiment.apply(world.market_sentiment, chaos);
        world.unemployment_rate = self.unemployment.apply(world.unemployment_rate, chaos);
        world.inflation_rate = self.inflation.apply(world.inflation_rate, chaos);
        world.trend_factor = self.trend.apply(world.trend_factor, chaos);
    }
}

/// The first match wins. Where entry `index` of the timeline holds the day
/// `key` and no entry before it does, that entry is the day's event,
/// whatever later entries hold the day too.
pub proof fn lemma_first_match_wins(key: int, index: int)
    requires
        0 <= index < TIMELINE_LEN,
        timeline_entry(index).covers(key),
        forall|earlier: int| 0 <= earlier < index ==> !timeline_entry(earlier).covers(key),
    ensures
        first_covering(key, 0) == Some(timeline_entry(index)),
{
    lemma_skips_to_first_match(key, 0, index);
}

/// A day that no entry of the timeline holds has no event.
pub proof fn lemma_no_match_no_event(key: int)
    requires
        forall|index: int| 0 <= index < TIMELINE_LEN ==> !timeline_entry(index).covers(key),
    ensures
        first_covering(key, 0).is_none(),
{
    lemma_skips_to_first_match(key, 0, TIMELINE_LEN as int);
}

/// The search from entry `from` on passes over every entry that does not
/// hold the day.
proof fn lemma_skips_to_first_match(key: int, from: nat, index: int)
    requires
        from <= index <= TIMELINE_LEN,
        forall|earlier: int| from <= earlier < index ==> !timeline_entry(earlier).covers(key),
    ensures
        first_covering(key, from) == first_covering(key, index as nat),
    decreases index - from,
{
    if from < index {
        lemma_skips_to_first_match(key, from + 1, index);
    }
}

/// The adjustment that two columns of the timeline stand for.
fn adjustment(factor: i64, target: i64) -> (r: Adjustment)
    ensures
        r == scale_or_set(factor, target),
{
    if target != 0 {
        Adjustment::Replace(Fixed { raw: target })
    } else if factor != 0 {
        Adjustment::Scale(Fixed { raw: factor })
    } else {
        Adjustment::Keep
    }
}

/// Applies the historical events of the world's date: the first entry of
/// the timeline that holds the date moves the indicators, and then
/// confidence, sentiment, unemployment and inflation are held to their
/// ranges.
pub fn apply_historical_events(world: &mut WorldState)
    ensures
        *final(world) == after_history(*old(world)),
        300_000 <= final(world).consumer_confidence@ <= 1_800_000,
        -800_000 <= final(world).market_sentiment@ <= 800_000,
        30_000 <= final(world).unemployment_rate@ <= 250_000,
        10_000 <= final(world).inflation_rate@ <= 150_000,
{
    match HistoricalEvent::on(&world.date) {
        Some(event) => {
            event.apply(world);
        },
        None => {},
    }
    world.consumer_confidence = world.consumer_confidence.clamp(
        Fixed { raw: 300_000 },
        Fixed { raw: 1_800_000 },
    );
    world.market_sentiment = world.market_sentiment.clamp(
        Fixed { raw: -800_000 },
        Fixed { raw: 800_000 },
    );
    world.unemployment_rate = world.unemployment_rate.clamp(
        Fixed { raw: 30_000 },
        Fixed { raw: 250_000 },
    );
    world.inflation_rate = world.inflation_rate.clamp(Fixed { raw: 10_000 }, Fixed { raw: 150_000 });
}

} // verus!
