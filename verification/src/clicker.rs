//! Clicker mechanics: click to produce, and production over time.
//!
//! Production over time is gathered at full precision. The accumulator
//! counts in steps of a millionth of a millionth of a Thing, which is what
//! a rate in millionths times a time in millionths comes to, so no part of
//! a Thing is lost or made twice, however the time is cut into ticks.

use crate::fixed::fixed;
use crate::fixed::lemma_product_fits;
use crate::fixed::Fixed;
use crate::game_state::GameState;
use crate::game_state::ThingProducedEvent;
use vstd::arithmetic::div_mod::lemma_fundamental_div_mod;
use vstd::prelude::*;

verus! {

/// Number of steps of the accumulator in one Thing.
pub const THING: i128 = 1_000_000_000_000;

/// Accumulator for fractional production.
#[derive(Clone, Copy, Debug, PartialEq, Eq, Structural)]
pub struct AutoProductionAccumulator {
    /// The production not yet handed out, in steps of which
    /// 1 000 000 000 000 make a Thing.
    pub accumulated: i128,
}

impl Default for AutoProductionAccumulator {
    fn default() -> (accumulator: AutoProductionAccumulator)
        ensures
            accumulator.accumulated == 0,
    {
        AutoProductionAccumulator { accumulated: 0 }
    }
}

/// The nearest value to `v` that an `i128` can hold.
pub open spec fn saturate_wide(v: int) -> int {
    if v < i128::MIN as int {
        i128::MIN as int
    } else if v > i128::MAX as int {
        i128::MAX as int
    } else {
        v
    }
}

/// Things made per second: the game's rate times the production
/// multiplier of the Thing, or the rate itself while no Thing is chosen.
pub open spec fn production_rate(game: GameState) -> Fixed {
    game.things_per_second.product(
        match game.thing_type {
            Some(thing) => thing.production(),
            None => fixed(1_000_000),
        },
    )
}

/// What the accumulator holds once `elapsed` seconds at `rate` are added
/// to `carry`, in steps.
pub open spec fn gathered(carry: int, rate: Fixed, elapsed: Fixed) -> int {
    saturate_wide(carry + rate@ * elapsed@)
}

/// The whole Things in `steps`: none below one Thing, and no more than a
/// `u64` can count.
pub open spec fn whole_things(steps: int) -> int {
    if steps < THING {
        0
    } else if steps / (THING as int) > u64::MAX {
        u64::MAX as int
    } else {
        steps / (THING as int)
    }
}

/// The Things handed out by a tick of `elapsed` seconds at `rate`, with
/// `carry` steps in the accumulator.
pub open spec fn tick_things(carry: int, rate: Fixed, elapsed: Fixed) -> int {
    whole_things(gathered(carry, rate, elapsed))
}

/// The steps left in the accumulator by such a tick.
pub open spec fn tick_carry(carry: int, rate: Fixed, elapsed: Fixed) -> int {
    gathered(carry, rate, elapsed) - tick_things(carry, rate, elapsed) * THING
}

/// The Things handed out by a run of ticks, one for each entry of
/// `ticks`, in all.
pub open spec fn run_things(carry: int, rate: Fixed, ticks: Seq<Fixed>) -> int
    decreases ticks.len(),
{
    if ticks.len() == 0 {
        0
    } else {
        run_things(carry, rate, ticks.drop_last()) + tick_things(
            run_carry(carry, rate, ticks.drop_last()),
            rate,
            ticks.last(),
        )
    }
}

/// The steps left in the accumulator by such a run.
pub open spec fn run_carry(carry: int, rate: Fixed, ticks: Seq<Fixed>) -> int
    decreases ticks.len(),
{
    if ticks.len() == 0 {
        carry
    } else {
        tick_carry(run_carry(carry, rate, ticks.drop_last()), rate, ticks.last())
    }
}

/// The seconds of a run of ticks, in millionths.
pub open spec fn run_time(ticks: Seq<Fixed>) -> int
    decreases ticks.len(),
{
    if ticks.len() == 0 {
        0
    } else {
        run_time(ticks.drop_last()) + ticks.last()@
    }
}

/// The Things that a click makes: the click power times the production
/// multiplier of the Thing, rounded up, and no more than a `u64` can
/// count.
pub open spec fn click_things(click_power: u64, multiplier: Fixed) -> int {
    let things = -((-(click_power * multiplier@)) / 1_000_000);
    if things > u64::MAX {
        u64::MAX as int
    } else {
        things
    }
}

/// Auto-produce Things over time: adds the production of `elapsed` seconds
/// to the accumulator and hands out the whole Things in it. Nothing
/// happens while the game's rate is not above zero.
pub fn auto_produce(
    game_state: &mut GameState,
    accumulator: &mut AutoProductionAccumulator,
    elapsed: Fixed,
) -> (event: Option<ThingProducedEvent>)
    ensures
        old(game_state).things_per_second@ <= 0 ==> event.is_none() && *final(game_state) == *old(
            game_state,
        ) && *final(accumulator) == *old(accumulator),
        old(game_state).things_per_second@ > 0 ==> {
            let rate = production_rate(*old(game_state));
            let things = tick_things(old(accumulator).accumulated as int, rate, elapsed);
            &&& final(accumulator).accumulated == tick_carry(
                old(accumulator).accumulated as int,
                rate,
                elapsed,
            )
            &&& *final(game_state) == (GameState {
                things_produced: old(game_state).things_produced.saturating_add(things as u64),
                ..*old(game_state)
            })
            &&& event == if things > 0 {
                Some(ThingProducedEvent { amount: things as u64, from_click: false })
            } else {
                None
            }
        },
{
    if game_state.things_per_second.raw > 0 {
        // Apply production multiplier from Thing type
        let multiplier = match game_state.thing_type {
            Some(thing_type) => thing_type.production_multiplier(),
            None => Fixed { raw: 1_000_000 },
        };
        let rate = game_state.things_per_second.saturating_mul(multiplier);
        proof {
            lemma_product_fits(rate.raw as int, elapsed.raw as int);
        }
        let production: i128 = (rate.raw as i128) * (elapsed.raw as i128);
        let total: i128 = match accumulator.accumulated.checked_add(production) {
            Some(sum) => sum,
            None => if production > 0 {
                i128::MAX
            } else {
                i128::MIN
            },
        };

        // Convert accumulated to whole Things
        let whole_things: u64 = if total < THING {
            0
        } else if total / THING > u64::MAX as i128 {
            u64::MAX
        } else {
            (total / THING) as u64
        };
        if whole_things > 0 {
            proof {
                lemma_fundamental_div_mod(total as int, THING as int);
            }
            accumulator.accumulated = total - (whole_things as i128) * THING;
            game_state.things_produced = game_state.things_produced.saturating_add(whole_things);
            Some(ThingProducedEvent { amount: whole_things, from_click: false })
        } else {
            accumulator.accumulated = total;
            None
        }
    } else {
        None
    }
}

/// A manual click: makes `ceil(click_power * production_multiplier)`
/// Things. Nothing happens while no Thing is chosen.
pub fn handle_click(game_state: &mut GameState) -> (event: Option<ThingProducedEvent>)
    ensures
        match old(game_state).thing_type {
            Some(thing) => {
                let things = click_things(old(game_state).click_power, thing.production());
                &&& *final(game_state) == (GameState {
                    things_produced: old(game_state).things_produced.saturating_add(things as u64),
                    ..*old(game_state)
                })
                &&& event == Some(ThingProducedEvent { amount: things as u64, from_click: true })
            },
            None => event.is_none() && *final(game_state) == *old(game_state),
        },
{
    match game_state.thing_type {
        Some(thing_type) => {
            let multiplier = thing_type.production_multiplier();
            let things = rounded_up(game_state.click_power, multiplier.raw as u64);
            game_state.things_produced = game_state.things_produced.saturating_add(things);
            Some(ThingProducedEvent { amount: things, from_click: true })
        },
        None => None,
    }
}

/// `power * millionths / 1 000 000`, rounded up, and no more than a `u64`
/// can count.
fn rounded_up(power: u64, millionths: u64) -> (things: u64)
    requires
        millionths <= 2_000_000,
    ensures
        things == click_things(power, Fixed { raw: millionths as i64 }),
{
    assert(0 <= power * millionths <= 0x1_0000_0000_0000_0000 * 2_000_000) by (nonlinear_arith)
        requires
            0 <= power <= 0x1_0000_0000_0000_0000,
            0 <= millionths <= 2_000_000,
    ;
    let wide: u128 = (power as u128) * (millionths as u128);
    let things: u128 = (wide + 999_999) / 1_000_000;
    if things > u64::MAX as u128 {
        u64::MAX
    } else {
        things as u64
    }
}

/// Production is conserved. A run of ticks whose times add up to `total`
/// hands out exactly the Things, and leaves exactly the steps, of one tick
/// of `total` seconds: no Thing is lost or made twice, however the time
/// is cut. This holds where no tick runs backwards, the rate is not
/// negative, the accumulator starts below one Thing, and the Things made
/// can be counted in a `u64`.
pub proof fn lemma_production_conserved(carry: int, rate: Fixed, ticks: Seq<Fixed>, total: Fixed)
    requires
        0 <= carry < THING,
        rate@ >= 0,
        forall|i: int| 0 <= i < ticks.len() ==> ticks[i]@ >= 0,
        total@ == run_time(ticks),
        carry + rate@ * total@ <= u64::MAX * THING,
    ensures
        run_things(carry, rate, ticks) == tick_things(carry, rate, total),
        run_carry(carry, rate, ticks) == tick_carry(carry, rate, total),
        0 <= run_carry(carry, rate, ticks) < THING,
    decreases ticks.len(),
{
    let all = carry + rate@ * total@;
    lemma_run_time_nonnegative(ticks);
    assert(0 <= rate@ * total@) by (nonlinear_arith)
        requires
            rate@ >= 0,
            total@ >= 0,
    ;
    if ticks.len() == 0 {
        assert(rate@ * total@ == 0) by (nonlinear_arith)
            requires
                total@ == 0,
        ;
    } else {
        let before = ticks.drop_last();
        let step = ticks.last();
        lemma_run_time_nonnegative(before);
        let earlier = fixed(run_time(before));
        assert(earlier@ == run_time(before));
        assert(rate@ * total@ == rate@ * earlier@ + rate@ * step@ && rate@ * step@ >= 0) by (nonlinear_arith)
            requires
                total@ == earlier@ + step@,
                step@ >= 0,
                rate@ >= 0,
        ;
        lemma_production_conserved(carry, rate, before, earlier);
        let made = run_things(carry, rate, before);
        let left = run_carry(carry, rate, before);
        let sooner = carry + rate@ * earlier@;
        assert(sooner == made * THING + left);
        assert(all == made * THING + (left + rate@ * step@));
    }
}

/// The time of a run of ticks of which none runs backwards is not
/// negative.
pub proof fn lemma_run_time_nonnegative(ticks: Seq<Fixed>)
    requires
        forall|i: int| 0 <= i < ticks.len() ==> ticks[i]@ >= 0,
    ensures
        run_time(ticks) >= 0,
    decreases ticks.len(),
{
    if ticks.len() > 0 {
        lemma_run_time_nonnegative(ticks.drop_last());
    }
}

} // verus!
