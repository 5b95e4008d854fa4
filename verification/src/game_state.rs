//! The player's progress, and the notices that the simulation hands out.

use crate::fixed::fixed;
use crate::fixed::Fixed;
use crate::thing_type::ThingType;
use vstd::prelude::*;

verus! {

/// Core game state.
#[derive(Clone, Copy, Debug, PartialEq, Eq, Structural)]
pub struct GameState {
    /// The type of Thing the player is selling
    pub thing_type: Option<ThingType>,
    /// Total Things produced (lifetime)
    pub things_produced: u64,
    /// Current money
    pub money: Fixed,
    /// Reputation (0.0 to 5.0, like star rating)
    pub reputation: Fixed,
    /// Marketing level (affects customer flow)
    pub marketing_level: u32,
    /// Things produced per second (auto-production)
    pub things_per_second: Fixed,
    /// Click power (Things per click)
    pub click_power: u64,
    /// Customers served
    pub customers_served: u64,
}

impl Default for GameState {
    /// No Thing chosen yet, 100 in money, a reputation of 2.5 and one
    /// Thing per click.
    fn default() -> (state: GameState)
        ensures
            state == GameState::initial(),
            state.reputation_in_range(),
    {
        GameState {
            thing_type: None,
            things_produced: 0,
            money: Fixed { raw: 100_000_000 },
            reputation: Fixed { raw: 2_500_000 },
            marketing_level: 0,
            things_per_second: Fixed { raw: 0 },
            click_power: 1,
            customers_served: 0,
        }
    }
}

impl GameState {
    /// The state a game starts in.
    pub open spec fn initial() -> GameState {
        GameState {
            thing_type: None,
            things_produced: 0,
            money: fixed(100_000_000),
            reputation: fixed(2_500_000),
            marketing_level: 0,
            things_per_second: fixed(0),
            click_power: 1,
            customers_served: 0,
        }
    }

    /// The reputation lies between 0.0 and 5.0.
    pub open spec fn reputation_in_range(self) -> bool {
        0 <= self.reputation@ <= 5_000_000
    }
}

/// Notice that the player produced Things.
#[derive(Clone, Copy, Debug, PartialEq, Eq, Structural)]
pub struct ThingProducedEvent {
    pub amount: u64,
    pub from_click: bool,
}

/// Notice that the money changed.
#[derive(Clone, Copy, Debug, PartialEq, Eq, Structural)]
pub struct MoneyChangedEvent {
    pub new_amount: Fixed,
    pub delta: Fixed,
}

/// Notice that the reputation changed.
#[derive(Clone, Copy, Debug, PartialEq, Eq, Structural)]
pub struct ReputationChangedEvent {
    pub new_reputation: Fixed,
}

/// Notice of a milestone.
#[derive(Clone, Copy, Debug, PartialEq, Eq, Structural)]
pub struct MilestoneEvent {
    pub milestone_type: MilestoneType,
}

#[derive(Clone, Copy, Debug, PartialEq, Eq, Structural)]
pub enum MilestoneType {
    ThingsProduced(u64),
    MoneyEarned(u64),
    CustomersServed(u64),
    ReputationReached(u8),
}

/// The thresholds of the milestones, for Things produced and for money.
pub const MILESTONES: [u64; 6] = [10, 100, 1000, 10000, 100000, 1000000];

/// What the milestone check saw last: the Things produced and the whole
/// money at the check before.
#[derive(Clone, Copy, Debug, PartialEq, Eq, Structural)]
pub struct MilestoneTracker {
    pub last_things: u64,
    pub last_money: u64,
}

impl Default for MilestoneTracker {
    fn default() -> (tracker: MilestoneTracker)
        ensures
            tracker == (MilestoneTracker { last_things: 0, last_money: 0 }),
    {
        MilestoneTracker { last_things: 0, last_money: 0 }
    }
}

/// Whether a count that went from `before` to `now` crossed `threshold`
/// upward.
pub open spec fn crossed(before: int, now: int, threshold: int) -> bool {
    before < threshold <= now
}

/// The whole units of money that count towards milestones: the amount
/// rounded down, and nothing for a debt.
pub open spec fn whole_money(money: Fixed) -> int {
    if money@ >= 0 {
        money.floor()
    } else {
        0
    }
}

/// The milestone of the given threshold, for money or for Things.
pub open spec fn milestone(of_money: bool, threshold: u64) -> MilestoneEvent {
    MilestoneEvent {
        milestone_type: if of_money {
            MilestoneType::MoneyEarned(threshold)
        } else {
            MilestoneType::ThingsProduced(threshold)
        },
    }
}

/// The milestones among the first `count` thresholds that a count crossed
/// on its way from `before` to `now`, in rising order.
pub open spec fn crossings(of_money: bool, before: int, now: int, count: nat) -> Seq<
    MilestoneEvent,
>
    recommends
        count <= 6,
    decreases count,
{
    if count == 0 {
        Seq::empty()
    } else {
        let earlier = crossings(of_money, before, now, (count - 1) as nat);
        let threshold = MILESTONES[count - 1];
        if crossed(before, now, threshold as int) {
            earlier.push(milestone(of_money, threshold))
        } else {
            earlier
        }
    }
}

/// Check for milestone achievements: one notice for every threshold that
/// the Things produced, and then the whole money, crossed upward since the
/// check before.
pub fn check_milestones(game_state: &GameState, tracker: &mut MilestoneTracker) -> (events: Vec<
    MilestoneEvent,
>)
    ensures
        events@ == crossings(
            false,
            old(tracker).last_things as int,
            game_state.things_produced as int,
            6,
        ) + crossings(true, old(tracker).last_money as int, whole_money(game_state.money), 6),
        final(tracker).last_things == game_state.things_produced,
        final(tracker).last_money == whole_money(game_state.money),
{
    let mut events: Vec<MilestoneEvent> = Vec::new();
    let things = game_state.things_produced;
    let last_things = tracker.last_things;
    let mut i: usize = 0;
    while i < 6
        invariant
            i <= 6,
            events@ == crossings(false, last_things as int, things as int, i as nat),
        decreases 6 - i,
    {
        let threshold = MILESTONES[i];
        if things >= threshold && last_things < threshold {
            events.push(MilestoneEvent { milestone_type: MilestoneType::ThingsProduced(threshold) });
        }
        i = i + 1;
    }
    tracker.last_things = things;

    let money_rounded: u64 = if game_state.money.raw >= 0 {
        game_state.money.floor_units() as u64
    } else {
        0
    };
    let last_money = tracker.last_money;
    let ghost things_part = events@;
    let mut j: usize = 0;
    while j < 6
        invariant
            j <= 6,
            events@ == things_part + crossings(
                true,
                last_money as int,
                money_rounded as int,
                j as nat,
            ),
        decreases 6 - j,
    {
        let threshold = MILESTONES[j];
        if money_rounded >= threshold && last_money < threshold {
            events.push(MilestoneEvent { milestone_type: MilestoneType::MoneyEarned(threshold) });
        }
        j = j + 1;
    }
    tracker.last_money = money_rounded;
    events
}

/// A milestone fires once. Where a count goes from `a` to `b` and on to
/// `c`, a threshold crossed on the first stretch is not crossed again on
/// the second, and the two stretches together cross exactly the thresholds
/// that the whole way from `a` to `c` crosses.
pub proof fn lemma_milestone_fires_once(a: int, b: int, c: int, threshold: int)
    requires
        a <= b <= c,
    ensures
        !(crossed(a, b, threshold) && crossed(b, c, threshold)),
        crossed(a, c, threshold) <==> crossed(a, b, threshold) || crossed(b, c, threshold),
{
}

/// The notices of a check name exactly the thresholds crossed, each of
/// them once: the notice of a threshold among the first `count` stands in
/// `crossings` if and only if the threshold was crossed, and no notice
/// stands there twice.
pub proof fn lemma_crossings_exact(of_money: bool, before: int, now: int, count: nat)
    requires
        count <= 6,
    ensures
        crossings(of_money, before, now, count).no_duplicates(),
        forall|k: int|
            0 <= k < 6 ==> (crossings(of_money, before, now, count).contains(
                milestone(of_money, #[trigger] MILESTONES[k]),
            ) <==> k < count && crossed(before, now, MILESTONES[k] as int)),
    decreases count,
{
    let all = crossings(of_money, before, now, count);
    if count > 0 {
        let earlier = crossings(of_money, before, now, (count - 1) as nat);
        lemma_crossings_exact(of_money, before, now, (count - 1) as nat);
        let threshold = MILESTONES[count - 1];
        let last = milestone(of_money, threshold);
        assert(!earlier.contains(last));
        if crossed(before, now, threshold as int) {
            assert(all == earlier.push(last));
            assert(all.last() == last);
            assert forall|k: int| 0 <= k < 6 implies (all.contains(
                milestone(of_money, #[trigger] MILESTONES[k]),
            ) <==> k < count && crossed(before, now, MILESTONES[k] as int)) by {
                let m = milestone(of_money, MILESTONES[k]);
                if k == count - 1 {
                    assert(all[all.len() - 1] == m);
                } else if earlier.contains(m) {
                    let at = choose|at: int| 0 <= at < earlier.len() && earlier[at] == m;
                    assert(all[at] == m);
                } else if all.contains(m) {
                    let at = choose|at: int| 0 <= at < all.len() && all[at] == m;
                    assert(at < earlier.len());
                    assert(earlier[at] == m);
                }
            }
            assert forall|x: int, y: int| 0 <= x < all.len() && 0 <= y < all.len() && x != y implies all[x]
                != all[y] by {
                if x == all.len() - 1 {
                    assert(earlier[y] == all[y]);
                } else if y == all.len() - 1 {
                    assert(earlier[x] == all[x]);
                } else {
                    assert(earlier[x] == all[x] && earlier[y] == all[y]);
                }
            }
        }
    }
}

} // verus!
