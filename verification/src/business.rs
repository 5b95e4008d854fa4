//! Business rules: sales, reputation and upgrades.

use crate::economy::one_plus;
use crate::economy::WorldState;
use crate::fixed::fixed;
use crate::fixed::Fixed;
use crate::game_state::GameState;
use crate::game_state::MoneyChangedEvent;
use crate::game_state::ReputationChangedEvent;
use crate::game_state::ThingProducedEvent;
use crate::marketing::MarketingState;
use crate::thing_type::ThingType;
use vstd::prelude::*;

verus! {

/// The notices that a sale hands out.
#[derive(Clone, Copy, Debug, PartialEq, Eq, Structural)]
pub struct SaleNotices {
    /// The new money and the revenue; there for every sale.
    pub money: Option<MoneyChangedEvent>,
    /// The new reputation; there where it moved by more than 0.001.
    pub reputation: Option<ReputationChangedEvent>,
}

/// The revenue of a sale: `amount * base_price * price_multiplier * (1 +
/// marketing_level * 0.1) * marketing_boost * (reputation / 2.5) *
/// world_demand * daily_chaos`, multiplied from left to right.
pub open spec fn revenue(
    amount: u64,
    base_price: Fixed,
    price_multiplier: Fixed,
    marketing_level: u32,
    marketing_boost: Fixed,
    reputation: Fixed,
    world_demand: Fixed,
    daily_chaos: Fixed,
) -> Fixed {
    Fixed::whole(amount as int)
        .product(base_price)
        .product(price_multiplier)
        .product(one_plus(Fixed::whole(marketing_level as int), fixed(100_000)))
        .product(marketing_boost)
        .product(reputation.quotient(fixed(2_500_000)))
        .product(world_demand)
        .product(daily_chaos)
}

/// `reputation + change`, held to the range of 0.0 to 5.0.
pub open spec fn reputation_moved(reputation: Fixed, change: Fixed) -> Fixed {
    reputation.sum(change).clamped(fixed(0), fixed(5_000_000))
}

/// The reputation after a sale of `amount` Things of the given type.
pub open spec fn reputation_after_sale(reputation: Fixed, thing: ThingType, amount: u64) -> Fixed {
    reputation_moved(reputation, thing.sale_reputation().product(Fixed::whole(amount as int)))
}

/// The reputation after `elapsed` seconds of marketing at the given level:
/// it gains `0.001 * marketing_level * elapsed`. Bad Things gain nothing,
/// nor does a level of zero.
pub open spec fn reputation_after_marketing(
    reputation: Fixed,
    thing: ThingType,
    marketing_level: u32,
    elapsed: Fixed,
) -> Fixed {
    if thing != ThingType::Bad && marketing_level > 0 {
        reputation_moved(
            reputation,
            fixed(1_000).product(Fixed::whole(marketing_level as int)).product(elapsed),
        )
    } else {
        reputation
    }
}

/// The reputation after `elapsed` seconds of decay: it loses the decay
/// rate of the Thing times `elapsed`, where that is more than nothing, and
/// does not fall below 0.0.
pub open spec fn reputation_after_decay(reputation: Fixed, thing: ThingType, elapsed: Fixed) -> Fixed {
    let decay = thing.decay().product(elapsed);
    if decay@ > 0 {
        reputation.difference(decay).larger(fixed(0))
    } else {
        reputation
    }
}

/// The game after the sale of `amount` Things in the given world and
/// under the given marketing; the game itself where no Thing is chosen.
pub open spec fn after_sale(
    game: GameState,
    world: WorldState,
    marketing: MarketingState,
    amount: u64,
) -> GameState {
    match game.thing_type {
        Some(thing) => GameState {
            money: game.money.sum(sale_revenue(game, world, marketing, amount)),
            customers_served: game.customers_served.saturating_add(amount),
            reputation: reputation_after_sale(game.reputation, thing, amount),
            ..game
        },
        None => game,
    }
}

/// The revenue of the sale of `amount` Things in the given world and under
/// the given marketing; nothing where no Thing is chosen.
pub open spec fn sale_revenue(
    game: GameState,
    world: WorldState,
    marketing: MarketingState,
    amount: u64,
) -> Fixed {
    match game.thing_type {
        Some(thing) => revenue(
            amount,
            thing.price(),
            marketing.price_multiplier,
            game.marketing_level,
            marketing.demand_boost(),
            game.reputation,
            world.demand_modifier(),
            world.chaos(),
        ),
        None => fixed(0),
    }
}

/// The notice of a reputation that went from `before` to `after`, where
/// it moved by more than `threshold` millionths.
pub open spec fn reputation_notice(before: Fixed, after: Fixed, threshold: int) -> Option<
    ReputationChangedEvent,
> {
    if after@ - before@ > threshold || before@ - after@ > threshold {
        Some(ReputationChangedEvent { new_reputation: after })
    } else {
        None
    }
}

/// The revenue of a sale of `amount` Things.
pub fn calculate_revenue(
    amount: u64,
    base_price: Fixed,
    price_multiplier: Fixed,
    marketing_level: u32,
    marketing_boost: Fixed,
    reputation: Fixed,
    world_demand: Fixed,
    daily_chaos: Fixed,
) -> (earned: Fixed)
    ensures
        earned == revenue(
            amount,
            base_price,
            price_multiplier,
            marketing_level,
            marketing_boost,
            reputation,
            world_demand,
            daily_chaos,
        ),
{
    let marketing_bonus = (Fixed { raw: 1_000_000 }).saturating_add(
        Fixed::from_int(marketing_level as i64).saturating_mul(Fixed { raw: 100_000 }),
    );
    let reputation_bonus = reputation.saturating_div(Fixed { raw: 2_500_000 });
    Fixed::from_u64(amount).saturating_mul(base_price).saturating_mul(
        price_multiplier,
    ).saturating_mul(marketing_bonus).saturating_mul(marketing_boost).saturating_mul(
        reputation_bonus,
    ).saturating_mul(world_demand).saturating_mul(daily_chaos)
}

/// The notice of a reputation that went from `before` to `after`.
fn notice_of(before: Fixed, after: Fixed, threshold: i64) -> (notice: Option<ReputationChangedEvent>)
    requires
        threshold >= 0,
    ensures
        notice == reputation_notice(before, after, threshold as int),
{
    let moved: i128 = after.raw as i128 - before.raw as i128;
    if moved > threshold as i128 || -moved > threshold as i128 {
        Some(ReputationChangedEvent { new_reputation: after })
    } else {
        None
    }
}

/// Process the sale of the Things that `event` tells of. Revenue is
/// affected by the forces of the world and by the player's marketing.
/// Nothing happens while no Thing is chosen.
pub fn process_sales(
    game_state: &mut GameState,
    world: &WorldState,
    marketing: &MarketingState,
    event: &ThingProducedEvent,
) -> (notices: SaleNotices)
    ensures
        *final(game_state) == after_sale(*old(game_state), *world, *marketing, event.amount),
        notices.money == match old(game_state).thing_type {
            Some(_) => Some(
                MoneyChangedEvent {
                    new_amount: final(game_state).money,
                    delta: sale_revenue(*old(game_state), *world, *marketing, event.amount),
                },
            ),
            None => None,
        },
        notices.reputation == reputation_notice(
            old(game_state).reputation,
            final(game_state).reputation,
            1_000,
        ),
        old(game_state).thing_type.is_some() || old(game_state).reputation_in_range()
            ==> final(game_state).reputation_in_range(),
{
    match game_state.thing_type {
        Some(thing_type) => {
            let earned = calculate_revenue(
                event.amount,
                thing_type.base_price(),
                marketing.price_multiplier,
                game_state.marketing_level,
                marketing.calculate_demand_boost(),
                game_state.reputation,
                world.calculate_demand_modifier(),
                world.daily_chaos(),
            );
            game_state.money = game_state.money.saturating_add(earned);
            game_state.customers_served = game_state.customers_served.saturating_add(event.amount);

            // Update reputation based on Thing type
            let change = thing_type.reputation_per_sale().saturating_mul(
                Fixed::from_u64(event.amount),
            );
            let before = game_state.reputation;
            game_state.reputation = before.saturating_add(change).clamp(
                Fixed { raw: 0 },
                Fixed { raw: 5_000_000 },
            );
            SaleNotices {
                money: Some(MoneyChangedEvent { new_amount: game_state.money, delta: earned }),
                reputation: notice_of(before, game_state.reputation, 1_000),
            }
        },
        None => SaleNotices { money: None, reputation: None },
    }
}

/// Natural reputation growth for Things that are not Bad, while there is
/// marketing.
pub fn update_reputation(game_state: &mut GameState, elapsed: Fixed)
    ensures
        *final(game_state) == (GameState {
            reputation: match old(game_state).thing_type {
                Some(thing) => reputation_after_marketing(
                    old(game_state).reputation,
                    thing,
                    old(game_state).marketing_level,
                    elapsed,
                ),
                None => old(game_state).reputation,
            },
            ..*old(game_state)
        }),
        old(game_state).reputation_in_range() ==> final(game_state).reputation_in_range(),
{
    match game_state.thing_type {
        Some(thing_type) => {
            if !matches!(thing_type, ThingType::Bad) && game_state.marketing_level > 0 {
                let gain = (Fixed { raw: 1_000 }).saturating_mul(
                    Fixed::from_int(game_state.marketing_level as i64),
                ).saturating_mul(elapsed);
                game_state.reputation = game_state.reputation.saturating_add(gain).clamp(
                    Fixed { raw: 0 },
                    Fixed { raw: 5_000_000 },
                );
            }
        },
        None => {},
    }
}

/// Apply reputation decay for Bad Things. The notice is there where the
/// reputation moved by more than 0.01.
pub fn apply_reputation_decay(game_state: &mut GameState, elapsed: Fixed) -> (notice: Option<
    ReputationChangedEvent,
>)
    ensures
        *final(game_state) == (GameState {
            reputation: match old(game_state).thing_type {
                Some(thing) => reputation_after_decay(old(game_state).reputation, thing, elapsed),
                None => old(game_state).reputation,
            },
            ..*old(game_state)
        }),
        notice == reputation_notice(
            old(game_state).reputation,
            final(game_state).reputation,
            10_000,
        ),
        old(game_state).reputation_in_range() ==> final(game_state).reputation_in_range(),
{
    match game_state.thing_type {
        Some(thing_type) => {
            let decay = thing_type.reputation_decay().saturating_mul(elapsed);
            if decay.raw > 0 {
                let before = game_state.reputation;
                game_state.reputation = before.saturating_sub(decay).max(Fixed { raw: 0 });
                notice_of(before, game_state.reputation, 10_000)
            } else {
                None
            }
        },
        None => None,
    }
}

/// Something that moves the reputation: a sale, a stretch of marketing, or
/// a stretch of decay.
pub enum ReputationStep {
    Sale { thing: ThingType, amount: u64 },
    Marketing { thing: ThingType, marketing_level: u32, elapsed: Fixed },
    Decay { thing: ThingType, elapsed: Fixed },
}

/// The reputation after one step.
pub open spec fn reputation_after_step(reputation: Fixed, step: ReputationStep) -> Fixed {
    match step {
        ReputationStep::Sale { thing, amount } => reputation_after_sale(reputation, thing, amount),
        ReputationStep::Marketing { thing, marketing_level, elapsed } => reputation_after_marketing(
            reputation,
            thing,
            marketing_level,
            elapsed,
        ),
        ReputationStep::Decay { thing, elapsed } => reputation_after_decay(
            reputation,
            thing,
            elapsed,
        ),
    }
}

/// The reputation after a run of steps.
pub open spec fn reputation_after_steps(reputation: Fixed, steps: Seq<ReputationStep>) -> Fixed
    decreases steps.len(),
{
    if steps.len() == 0 {
        reputation
    } else {
        reputation_after_step(reputation_after_steps(reputation, steps.drop_last()), steps.last())
    }
}

/// A step leaves a reputation between 0.0 and 5.0 between 0.0 and 5.0.
pub proof fn lemma_step_keeps_range(reputation: Fixed, step: ReputationStep)
    requires
        0 <= reputation@ <= 5_000_000,
    ensures
        0 <= reputation_after_step(reputation, step)@ <= 5_000_000,
{
}

/// A run of steps leaves a reputation between 0.0 and 5.0 between 0.0 and
/// 5.0.
pub proof fn lemma_steps_keep_range(reputation: Fixed, steps: Seq<ReputationStep>)
    requires
        0 <= reputation@ <= 5_000_000,
    ensures
        0 <= reputation_after_steps(reputation, steps)@ <= 5_000_000,
    decreases steps.len(),
{
    if steps.len() > 0 {
        lemma_steps_keep_range(reputation, steps.drop_last());
        lemma_step_keeps_range(
            reputation_after_steps(reputation, steps.drop_last()),
            steps.last(),
        );
    }
}

/// The reputation never leaves its range. From a reputation between 0.0
/// and 5.0, whatever sales, marketing and decay follow, and however many,
/// the reputation after each of them lies between 0.0 and 5.0.
pub proof fn lemma_reputation_stays_in_range(reputation: Fixed, steps: Seq<ReputationStep>)
    requires
        0 <= reputation@ <= 5_000_000,
    ensures
        forall|seen: int|
            0 <= seen <= steps.len() ==> 0 <= (#[trigger] reputation_after_steps(
                reputation,
                steps.take(seen),
            ))@ <= 5_000_000,
{
    assert forall|seen: int| 0 <= seen <= steps.len() implies 0 <= (#[trigger] reputation_after_steps(
        reputation,
        steps.take(seen),
    ))@ <= 5_000_000 by {
        lemma_steps_keep_range(reputation, steps.take(seen));
    }
}

/// Upgrade types for the business.
#[derive(Clone, Copy, Debug, PartialEq, Eq, Structural)]
pub enum UpgradeType {
    /// Increases click power
    BetterTools,
    /// Increases things per second
    HireWorker,
    /// Big boost to things per second
    Automation,
    /// Marketing level +1
    SocialMedia,
    /// Marketing level +2
    Billboard,
    /// Marketing level +3
    InfluencerDeal,
}

impl UpgradeType {
    pub open spec fn name_text(self) -> Seq<char> {
        match self {
            UpgradeType::BetterTools => "Better Tools"@,
            UpgradeType::HireWorker => "Hire Worker"@,
            UpgradeType::Automation => "Automation"@,
            UpgradeType::SocialMedia => "Social Media"@,
            UpgradeType::Billboard => "Billboard"@,
            UpgradeType::InfluencerDeal => "Influencer Deal"@,
        }
    }

    pub open spec fn description_text(self) -> Seq<char> {
        match self {
            UpgradeType::BetterTools => "+1 Thing per click"@,
            UpgradeType::HireWorker => "+0.5 Things per second"@,
            UpgradeType::Automation => "+2 Things per second"@,
            UpgradeType::SocialMedia => "+1 Marketing Level"@,
            UpgradeType::Billboard => "+2 Marketing Level"@,
            UpgradeType::InfluencerDeal => "+3 Marketing Level"@,
        }
    }

    /// The cost of the first purchase: 50, 100, 500, 75, 300 and 1000.
    pub open spec fn first_cost(self) -> Fixed {
        match self {
            UpgradeType::BetterTools => fixed(50_000_000),
            UpgradeType::HireWorker => fixed(100_000_000),
            UpgradeType::Automation => fixed(500_000_000),
            UpgradeType::SocialMedia => fixed(75_000_000),
            UpgradeType::Billboard => fixed(300_000_000),
            UpgradeType::InfluencerDeal => fixed(1_000_000_000),
        }
    }

    /// Whether the upgrade raises production.
    pub open spec fn for_production(self) -> bool {
        self == UpgradeType::BetterTools || self == UpgradeType::HireWorker || self
            == UpgradeType::Automation
    }

    /// The game with the upgrade's gain: one more Thing per click, 0.5 or
    /// 2 more Things per second, or 1, 2 or 3 more marketing levels.
    pub open spec fn gained(self, game: GameState) -> GameState {
        match self {
            UpgradeType::BetterTools => GameState {
                click_power: game.click_power.saturating_add(1),
                ..game
            },
            UpgradeType::HireWorker => GameState {
                things_per_second: game.things_per_second.sum(fixed(500_000)),
                ..game
            },
            UpgradeType::Automation => GameState {
                things_per_second: game.things_per_second.sum(fixed(2_000_000)),
                ..game
            },
            UpgradeType::SocialMedia => GameState {
                marketing_level: game.marketing_level.saturating_add(1),
                ..game
            },
            UpgradeType::Billboard => GameState {
                marketing_level: game.marketing_level.saturating_add(2),
                ..game
            },
            UpgradeType::InfluencerDeal => GameState {
                marketing_level: game.marketing_level.saturating_add(3),
                ..game
            },
        }
    }

    pub fn name(&self) -> (name: &'static str)
        ensures
            name@ == self.name_text(),
    {
        match self {
            UpgradeType::BetterTools => "Better Tools",
            UpgradeType::HireWorker => "Hire Worker",
            UpgradeType::Automation => "Automation",
            UpgradeType::SocialMedia => "Social Media",
            UpgradeType::Billboard => "Billboard",
            UpgradeType::InfluencerDeal => "Influencer Deal",
        }
    }

    pub fn description(&self) -> (description: &'static str)
        ensures
            description@ == self.description_text(),
    {
        match self {
            UpgradeType::BetterTools => "+1 Thing per click",
            UpgradeType::HireWorker => "+0.5 Things per second",
            UpgradeType::Automation => "+2 Things per second",
            UpgradeType::SocialMedia => "+1 Marketing Level",
            UpgradeType::Billboard => "+2 Marketing Level",
            UpgradeType::InfluencerDeal => "+3 Marketing Level",
        }
    }

    pub fn base_cost(&self) -> (cost: Fixed)
        ensures
            cost == self.first_cost(),
    {
        match self {
            UpgradeType::BetterTools => Fixed { raw: 50_000_000 },
            UpgradeType::HireWorker => Fixed { raw: 100_000_000 },
            UpgradeType::Automation => Fixed { raw: 500_000_000 },
            UpgradeType::SocialMedia => Fixed { raw: 75_000_000 },
            UpgradeType::Billboard => Fixed { raw: 300_000_000 },
            UpgradeType::InfluencerDeal => Fixed { raw: 1_000_000_000 },
        }
    }

    pub fn is_production(&self) -> (production: bool)
        ensures
            production == self.for_production(),
    {
        matches!(self, UpgradeType::BetterTools | UpgradeType::HireWorker | UpgradeType::Automation)
    }

    pub fn is_marketing(&self) -> (marketing: bool)
        ensures
            marketing == !self.for_production(),
    {
        matches!(
            self,
            UpgradeType::SocialMedia | UpgradeType::Billboard | UpgradeType::InfluencerDeal
        )
    }
}

/// How often each upgrade has been bought.
#[derive(Clone, Copy, Debug, PartialEq, Eq, Structural)]
pub struct UpgradeState {
    pub better_tools: u32,
    pub workers: u32,
    pub automation: u32,
    pub social_media: u32,
    pub billboards: u32,
    pub influencer_deals: u32,
}

impl Default for UpgradeState {
    fn default() -> (state: UpgradeState)
        ensures
            forall|upgrade: UpgradeType| state.count_of(upgrade) == 0,
    {
        UpgradeState {
            better_tools: 0,
            workers: 0,
            automation: 0,
            social_media: 0,
            billboards: 0,
            influencer_deals: 0,
        }
    }
}

/// The price of an upgrade that costs `base` at first, after `count`
/// purchases: each purchase raises it by 15%, rounded down to a millionth.
pub open spec fn price_after(base: Fixed, count: nat) -> Fixed
    decreases count,
{
    if count == 0 {
        base
    } else {
        price_after(base, (count - 1) as nat).product(fixed(1_150_000))
    }
}

impl UpgradeState {
    /// How often `upgrade` has been bought.
    pub open spec fn count_of(self, upgrade: UpgradeType) -> u32 {
        match upgrade {
            UpgradeType::BetterTools => self.better_tools,
            UpgradeType::HireWorker => self.workers,
            UpgradeType::Automation => self.automation,
            UpgradeType::SocialMedia => self.social_media,
            UpgradeType::Billboard => self.billboards,
            UpgradeType::InfluencerDeal => self.influencer_deals,
        }
    }

    /// What `upgrade` costs now.
    pub open spec fn price(self, upgrade: UpgradeType) -> Fixed {
        price_after(upgrade.first_cost(), self.count_of(upgrade) as nat)
    }

    /// The counts with one more purchase of `upgrade`.
    pub open spec fn with_one_more(self, upgrade: UpgradeType) -> UpgradeState {
        match upgrade {
            UpgradeType::BetterTools => UpgradeState {
                better_tools: self.better_tools.saturating_add(1),
                ..self
            },
            UpgradeType::HireWorker => UpgradeState {
                workers: self.workers.saturating_add(1),
                ..self
            },
            UpgradeType::Automation => UpgradeState {
                automation: self.automation.saturating_add(1),
                ..self
            },
            UpgradeType::SocialMedia => UpgradeState {
                social_media: self.social_media.saturating_add(1),
                ..self
            },
            UpgradeType::Billboard => UpgradeState {
                billboards: self.billboards.saturating_add(1),
                ..self
            },
            UpgradeType::InfluencerDeal => UpgradeState {
                influencer_deals: self.influencer_deals.saturating_add(1),
                ..self
            },
        }
    }

    pub fn get_count(&self, upgrade: UpgradeType) -> (count: u32)
        ensures
            count == self.count_of(upgrade),
    {
        match upgrade {
            UpgradeType::BetterTools => self.better_tools,
            UpgradeType::HireWorker => self.workers,
            UpgradeType::Automation => self.automation,
            UpgradeType::SocialMedia => self.social_media,
            UpgradeType::Billboard => self.billboards,
            UpgradeType::InfluencerDeal => self.influencer_deals,
        }
    }

    /// What `upgrade` costs now: its base cost, raised by 15% for each
    /// purchase made.
    pub fn cost(&self, upgrade: UpgradeType) -> (cost: Fixed)
        ensures
            cost == self.price(upgrade),
            cost@ > 0,
    {
        let count = self.get_count(upgrade);
        let base = upgrade.base_cost();
        let mut cost = base;
        let mut bought: u32 = 0;
        while bought < count && cost.raw < i64::MAX
            invariant
                bought <= count,
                cost == price_after(base, bought as nat),
                cost@ > 0,
            decreases count - bought,
        {
            cost = cost.saturating_mul(Fixed { raw: 1_150_000 });
            bought = bought + 1;
            assert(cost@ > 0) by {
                lemma_raise_grows(price_after(base, (bought - 1) as nat));
            }
        }
        proof {
            if bought < count {
                lemma_price_stays_at_top(base, bought as nat, count as nat);
            }
        }
        cost
    }

    /// Buys `upgrade` if the money suffices, and says whether it did.
    /// Declined, the purchase changes nothing.
    pub fn purchase(&mut self, upgrade: UpgradeType, game_state: &mut GameState) -> (bought: bool)
        ensures
            bought == (old(game_state).money@ >= old(self).price(upgrade)@),
            !bought ==> *final(self) == *old(self) && *final(game_state) == *old(game_state),
            bought ==> *final(self) == old(self).with_one_more(upgrade) && *final(game_state)
                == upgrade.gained(
                GameState {
                    money: fixed(old(game_state).money@ - old(self).price(upgrade)@),
                    ..*old(game_state)
                },
            ),
            old(game_state).money@ >= 0 ==> final(game_state).money@ >= 0,
            final(game_state).reputation == old(game_state).reputation,
    {
        let cost = self.cost(upgrade);
        if game_state.money.raw >= cost.raw {
            game_state.money = game_state.money.saturating_sub(cost);

            match upgrade {
                UpgradeType::BetterTools => {
                    self.better_tools = self.better_tools.saturating_add(1);
                    game_state.click_power = game_state.click_power.saturating_add(1);
                },
                UpgradeType::HireWorker => {
                    self.workers = self.workers.saturating_add(1);
                    game_state.things_per_second = game_state.things_per_second.saturating_add(
                        Fixed { raw: 500_000 },
                    );
                },
                UpgradeType::Automation => {
                    self.automation = self.automation.saturating_add(1);
                    game_state.things_per_second = game_state.things_per_second.saturating_add(
                        Fixed { raw: 2_000_000 },
                    );
                },
                UpgradeType::SocialMedia => {
                    self.social_media = self.social_media.saturating_add(1);
                    game_state.marketing_level = game_state.marketing_level.saturating_add(1);
                },
                UpgradeType::Billboard => {
                    self.billboards = self.billboards.saturating_add(1);
                    game_state.marketing_level = game_state.marketing_level.saturating_add(2);
                },
                UpgradeType::InfluencerDeal => {
                    self.influencer_deals = self.influencer_deals.saturating_add(1);
                    game_state.marketing_level = game_state.marketing_level.saturating_add(3);
                },
            }
            true
        } else {
            false
        }
    }
}

/// A positive price raised by 15% is positive, and no lower than before;
/// the highest price that can be held stays where it is.
pub proof fn lemma_raise_grows(price: Fixed)
    requires
        price@ > 0,
    ensures
        price.product(fixed(1_150_000))@ >= price@,
        price@ == i64::MAX ==> price.product(fixed(1_150_000))@ == i64::MAX,
{
    let p = price@;
    assert((p * 1_150_000) / 1_000_000 >= p);
}

/// A price that has reached the highest that can be held stays there
/// through every further purchase.
pub proof fn lemma_price_stays_at_top(base: Fixed, reached: nat, later: nat)
    requires
        reached <= later,
        price_after(base, reached)@ == i64::MAX,
    ensures
        price_after(base, later)@ == i64::MAX,
    decreases later - reached,
{
    if reached < later {
        lemma_price_stays_at_top(base, reached, (later - 1) as nat);
        lemma_raise_grows(price_after(base, (later - 1) as nat));
    }
}

} // verus!
