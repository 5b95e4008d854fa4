//! Player-controllable economic levers.
//!
//! These are the things the player can control, unlike the forces of the
//! world.

use crate::economy::one_plus;
use crate::fixed::fixed;
use crate::fixed::saturate;
use crate::fixed::Fixed;
use vstd::prelude::*;

verus! {

#[derive(Clone, Copy, Debug, PartialEq, Eq, Structural)]
pub struct AdvertisingCampaign {
    /// Is this campaign active?
    pub active: bool,
    /// Spending per day
    pub daily_spend: Fixed,
    /// Campaign effectiveness (improves with experience)
    pub effectiveness: Fixed,
    /// Total spent historically
    pub lifetime_spend: Fixed,
    /// Reach multiplier
    pub reach: Fixed,
}

impl Default for AdvertisingCampaign {
    fn default() -> (campaign: AdvertisingCampaign)
        ensures
            campaign == AdvertisingCampaign::idle(fixed(0), fixed(0)),
    {
        AdvertisingCampaign::inactive(Fixed { raw: 0 }, Fixed { raw: 0 })
    }
}

impl AdvertisingCampaign {
    /// A campaign that is not running and has spent nothing.
    pub open spec fn idle(effectiveness: Fixed, reach: Fixed) -> AdvertisingCampaign {
        AdvertisingCampaign {
            active: false,
            daily_spend: fixed(0),
            effectiveness,
            lifetime_spend: fixed(0),
            reach,
        }
    }

    /// What the campaign adds to demand: `daily_spend * effectiveness *
    /// reach` while it runs, else nothing.
    pub open spec fn pull(self) -> Fixed {
        if self.active {
            self.daily_spend.product(self.effectiveness).product(self.reach)
        } else {
            fixed(0)
        }
    }

    /// What the campaign costs a day: its daily spend while it runs.
    pub open spec fn daily_cost(self) -> Fixed {
        if self.active {
            self.daily_spend
        } else {
            fixed(0)
        }
    }

    /// A campaign that is not running and has spent nothing.
    pub fn inactive(effectiveness: Fixed, reach: Fixed) -> (campaign: AdvertisingCampaign)
        ensures
            campaign == AdvertisingCampaign::idle(effectiveness, reach),
    {
        AdvertisingCampaign {
            active: false,
            daily_spend: Fixed { raw: 0 },
            effectiveness,
            lifetime_spend: Fixed { raw: 0 },
            reach,
        }
    }

    pub fn contribution(&self) -> (contribution: Fixed)
        ensures
            contribution == self.pull(),
    {
        if self.active {
            self.daily_spend.saturating_mul(self.effectiveness).saturating_mul(self.reach)
        } else {
            Fixed { raw: 0 }
        }
    }
}

#[derive(Clone, Copy, Debug, PartialEq, Eq, Structural)]
pub struct InfluencerDeal {
    /// Is there an active deal?
    pub active: bool,
    /// Cost per post/mention
    pub cost_per_post: Fixed,
    /// Follower reach
    pub follower_reach: u64,
    /// Authenticity score (affects conversion)
    pub authenticity: Fixed,
    /// Posts remaining in deal
    pub posts_remaining: u32,
}

impl Default for InfluencerDeal {
    fn default() -> (deal: InfluencerDeal)
        ensures
            deal == InfluencerDeal::idle(fixed(0), 0, fixed(0)),
    {
        InfluencerDeal::inactive(Fixed { raw: 0 }, 0, Fixed { raw: 0 })
    }
}

impl InfluencerDeal {
    /// A deal that is not running and has no posts left.
    pub open spec fn idle(
        cost_per_post: Fixed,
        follower_reach: u64,
        authenticity: Fixed,
    ) -> InfluencerDeal {
        InfluencerDeal {
            active: false,
            cost_per_post,
            follower_reach,
            authenticity,
            posts_remaining: 0,
        }
    }

    /// The followers in millions: one millionth for each follower.
    pub open spec fn followers_in_millions(self) -> Fixed {
        fixed(saturate(self.follower_reach as int))
    }

    /// What the deal adds to demand: the followers in millions times the
    /// authenticity while it runs and has posts left, else nothing.
    pub open spec fn pull(self) -> Fixed {
        if self.active && self.posts_remaining > 0 {
            self.followers_in_millions().product(self.authenticity)
        } else {
            fixed(0)
        }
    }

    /// A deal that is not running and has no posts left.
    pub fn inactive(cost_per_post: Fixed, follower_reach: u64, authenticity: Fixed) -> (deal:
        InfluencerDeal)
        ensures
            deal == InfluencerDeal::idle(cost_per_post, follower_reach, authenticity),
    {
        InfluencerDeal {
            active: false,
            cost_per_post,
            follower_reach,
            authenticity,
            posts_remaining: 0,
        }
    }

    pub fn contribution(&self) -> (contribution: Fixed)
        ensures
            contribution == self.pull(),
    {
        if self.active && self.posts_remaining > 0 {
            let millions = if self.follower_reach > i64::MAX as u64 {
                Fixed { raw: i64::MAX }
            } else {
                Fixed { raw: self.follower_reach as i64 }
            };
            millions.saturating_mul(self.authenticity)
        } else {
            Fixed { raw: 0 }
        }
    }
}

#[derive(Clone, Copy, Debug, PartialEq, Eq, Structural)]
pub struct BackroomDeal {
    /// Is the deal active?
    pub active: bool,
    /// Monthly "fee"
    pub monthly_cost: Fixed,
    /// Strength of the arrangement
    pub strength: Fixed,
    /// Risk of exposure (0-1)
    pub exposure_risk: Fixed,
    /// Months remaining
    pub months_remaining: u32,
}

impl Default for BackroomDeal {
    fn default() -> (deal: BackroomDeal)
        ensures
            deal == BackroomDeal::idle(fixed(0), fixed(0), fixed(0)),
    {
        BackroomDeal::inactive(Fixed { raw: 0 }, Fixed { raw: 0 }, Fixed { raw: 0 })
    }
}

impl BackroomDeal {
    /// A deal that is not in force and has no months left.
    pub open spec fn idle(monthly_cost: Fixed, strength: Fixed, exposure_risk: Fixed) -> BackroomDeal {
        BackroomDeal { active: false, monthly_cost, strength, exposure_risk, months_remaining: 0 }
    }

    /// What the deal adds to demand: `strength * (1 - exposure_risk *
    /// 0.5)` while it is in force, else nothing.
    pub open spec fn pull(self) -> Fixed {
        if self.active {
            self.strength.product(
                fixed(1_000_000).difference(self.exposure_risk.product(fixed(500_000))),
            )
        } else {
            fixed(0)
        }
    }

    /// What the deal costs a day: a thirtieth of its monthly fee while it
    /// is in force.
    pub open spec fn daily_cost(self) -> Fixed {
        if self.active {
            self.monthly_cost.quotient(fixed(30_000_000))
        } else {
            fixed(0)
        }
    }

    /// A deal that is not in force and has no months left.
    pub fn inactive(monthly_cost: Fixed, strength: Fixed, exposure_risk: Fixed) -> (deal:
        BackroomDeal)
        ensures
            deal == BackroomDeal::idle(monthly_cost, strength, exposure_risk),
    {
        BackroomDeal { active: false, monthly_cost, strength, exposure_risk, months_remaining: 0 }
    }

    pub fn contribution(&self) -> (contribution: Fixed)
        ensures
            contribution == self.pull(),
    {
        if self.active {
            self.strength.saturating_mul(
                (Fixed { raw: 1_000_000 }).saturating_sub(
                    self.exposure_risk.saturating_mul(Fixed { raw: 500_000 }),
                ),
            )
        } else {
            Fixed { raw: 0 }
        }
    }
}

#[derive(Clone, Copy, Debug, PartialEq, Eq, Structural)]
pub struct ManipulationTactic {
    /// Is this tactic in use?
    pub active: bool,
    /// Intensity (0-1)
    pub intensity: Fixed,
    /// Risk of backlash
    pub backlash_risk: Fixed,
    /// Accumulated suspicion
    pub suspicion: Fixed,
}

impl Default for ManipulationTactic {
    fn default() -> (tactic: ManipulationTactic)
        ensures
            tactic == ManipulationTactic::idle(fixed(0), fixed(0)),
    {
        ManipulationTactic::inactive(Fixed { raw: 0 }, Fixed { raw: 0 })
    }
}

impl ManipulationTactic {
    /// A tactic that is not in use and has raised no suspicion.
    pub open spec fn idle(intensity: Fixed, backlash_risk: Fixed) -> ManipulationTactic {
        ManipulationTactic { active: false, intensity, backlash_risk, suspicion: fixed(0) }
    }

    /// What the tactic adds to demand: `intensity * (1 - suspicion)` while
    /// it is in use, else nothing.
    pub open spec fn pull(self) -> Fixed {
        if self.active {
            self.intensity.product(fixed(1_000_000).difference(self.suspicion))
        } else {
            fixed(0)
        }
    }

    /// A tactic that is not in use and has raised no suspicion.
    pub fn inactive(intensity: Fixed, backlash_risk: Fixed) -> (tactic: ManipulationTactic)
        ensures
            tactic == ManipulationTactic::idle(intensity, backlash_risk),
    {
        ManipulationTactic { active: false, intensity, backlash_risk, suspicion: Fixed { raw: 0 } }
    }

    pub fn contribution(&self) -> (contribution: Fixed)
        ensures
            contribution == self.pull(),
    {
        if self.active {
            self.intensity.saturating_mul((Fixed { raw: 1_000_000 }).saturating_sub(self.suspicion))
        } else {
            Fixed { raw: 0 }
        }
    }
}

/// All the marketing and business levers the player can pull.
#[derive(Clone, Copy, Debug, PartialEq, Eq, Structural)]
pub struct MarketingState {
    /// Newspaper ads (cheap, local reach)
    pub newspaper_ads: AdvertisingCampaign,
    /// Radio spots
    pub radio_ads: AdvertisingCampaign,
    /// TV commercials (expensive, massive reach)
    pub tv_ads: AdvertisingCampaign,
    /// Internet ads (targeted, scalable)
    pub internet_ads: AdvertisingCampaign,
    /// Billboard/outdoor advertising
    pub billboard_ads: AdvertisingCampaign,
    /// Local micro-influencers
    pub micro_influencers: InfluencerDeal,
    /// Mid-tier influencers
    pub mid_influencers: InfluencerDeal,
    /// Celebrity endorsements
    pub celebrity_endorsement: InfluencerDeal,
    /// Retail store placement deals
    pub retail_placement: BackroomDeal,
    /// Distributor kickbacks
    pub distributor_deals: BackroomDeal,
    /// Supplier exclusivity
    pub supplier_exclusivity: BackroomDeal,
    /// "Consulting fees" to decision makers
    pub consulting_fees: BackroomDeal,
    /// Artificial scarcity tactics
    pub artificial_scarcity: ManipulationTactic,
    /// Astroturfing (fake grassroots buzz)
    pub astroturfing: ManipulationTactic,
    /// Review manipulation
    pub review_manipulation: ManipulationTactic,
    /// Competitor sabotage
    pub competitor_sabotage: ManipulationTactic,
    /// Current price multiplier
    pub price_multiplier: Fixed,
    /// Loss leader strategy active
    pub loss_leader: bool,
    /// Premium pricing psychology
    pub premium_positioning: bool,
    /// Press releases frequency
    pub pr_intensity: Fixed,
    /// Crisis management fund
    pub crisis_fund: Fixed,
    /// Media relationship strength
    pub media_relationships: Fixed,
    /// Loyalty program level
    pub loyalty_program: u8,
    /// Referral bonus amount
    pub referral_bonus: Fixed,
}

impl Default for MarketingState {
    /// Every lever at rest.
    fn default() -> (state: MarketingState)
        ensures
            state == MarketingState::initial(),
    {
        let zero = Fixed { raw: 0 };
        MarketingState {
            // Advertising - all start inactive
            newspaper_ads: AdvertisingCampaign::inactive(
                Fixed { raw: 500_000 },
                Fixed { raw: 100_000 },
            ),
            radio_ads: AdvertisingCampaign::inactive(Fixed { raw: 700_000 }, Fixed { raw: 300_000 }),
            tv_ads: AdvertisingCampaign::inactive(Fixed { raw: 1_500_000 }, Fixed { raw: 1_000_000 }),
            internet_ads: AdvertisingCampaign::inactive(
                Fixed { raw: 1_000_000 },
                Fixed { raw: 500_000 },
            ),
            billboard_ads: AdvertisingCampaign::inactive(
                Fixed { raw: 300_000 },
                Fixed { raw: 200_000 },
            ),
            // Influencers
            micro_influencers: InfluencerDeal::inactive(
                Fixed { raw: 50_000_000 },
                10_000,
                Fixed { raw: 900_000 },
            ),
            mid_influencers: InfluencerDeal::inactive(
                Fixed { raw: 500_000_000 },
                100_000,
                Fixed { raw: 700_000 },
            ),
            celebrity_endorsement: InfluencerDeal::inactive(
                Fixed { raw: 50_000_000_000 },
                10_000_000,
                Fixed { raw: 300_000 },
            ),
            // Backroom deals
            retail_placement: BackroomDeal::inactive(
                Fixed { raw: 1_000_000_000 },
                Fixed { raw: 1_200_000 },
                Fixed { raw: 50_000 },
            ),
            distributor_deals: BackroomDeal::inactive(
                Fixed { raw: 2_000_000_000 },
                Fixed { raw: 1_500_000 },
                Fixed { raw: 100_000 },
            ),
            supplier_exclusivity: BackroomDeal::inactive(
                Fixed { raw: 5_000_000_000 },
                Fixed { raw: 1_300_000 },
                Fixed { raw: 150_000 },
            ),
            consulting_fees: BackroomDeal::inactive(
                Fixed { raw: 10_000_000_000 },
                Fixed { raw: 2_000_000 },
                Fixed { raw: 300_000 },
            ),
            // Manipulation
            artificial_scarcity: ManipulationTactic::inactive(
                Fixed { raw: 500_000 },
                Fixed { raw: 200_000 },
            ),
            astroturfing: ManipulationTactic::inactive(Fixed { raw: 700_000 }, Fixed { raw: 400_000 }),
            review_manipulation: ManipulationTactic::inactive(
                Fixed { raw: 600_000 },
                Fixed { raw: 500_000 },
            ),
            competitor_sabotage: ManipulationTactic::inactive(
                Fixed { raw: 800_000 },
                Fixed { raw: 700_000 },
            ),
            // Pricing
            price_multiplier: Fixed { raw: 1_000_000 },
            loss_leader: false,
            premium_positioning: false,
            // PR
            pr_intensity: zero,
            crisis_fund: zero,
            media_relationships: zero,
            // Loyalty
            loyalty_program: 0,
            referral_bonus: zero,
        }
    }
}

impl MarketingState {
    /// Every lever at rest: nothing runs, each instrument has its own
    /// effectiveness, reach, cost, strength and risk, and the price
    /// multiplier is 1.0.
    pub open spec fn initial() -> MarketingState {
        MarketingState {
            newspaper_ads: AdvertisingCampaign::idle(fixed(500_000), fixed(100_000)),
            radio_ads: AdvertisingCampaign::idle(fixed(700_000), fixed(300_000)),
            tv_ads: AdvertisingCampaign::idle(fixed(1_500_000), fixed(1_000_000)),
            internet_ads: AdvertisingCampaign::idle(fixed(1_000_000), fixed(500_000)),
            billboard_ads: AdvertisingCampaign::idle(fixed(300_000), fixed(200_000)),
            micro_influencers: InfluencerDeal::idle(fixed(50_000_000), 10_000, fixed(900_000)),
            mid_influencers: InfluencerDeal::idle(fixed(500_000_000), 100_000, fixed(700_000)),
            celebrity_endorsement: InfluencerDeal::idle(
                fixed(50_000_000_000),
                10_000_000,
                fixed(300_000),
            ),
            retail_placement: BackroomDeal::idle(
                fixed(1_000_000_000),
                fixed(1_200_000),
                fixed(50_000),
            ),
            distributor_deals: BackroomDeal::idle(
                fixed(2_000_000_000),
                fixed(1_500_000),
                fixed(100_000),
            ),
            supplier_exclusivity: BackroomDeal::idle(
                fixed(5_000_000_000),
                fixed(1_300_000),
                fixed(150_000),
            ),
            consulting_fees: BackroomDeal::idle(
                fixed(10_000_000_000),
                fixed(2_000_000),
                fixed(300_000),
            ),
            artificial_scarcity: ManipulationTactic::idle(fixed(500_000), fixed(200_000)),
            astroturfing: ManipulationTactic::idle(fixed(700_000), fixed(400_000)),
            review_manipulation: ManipulationTactic::idle(fixed(600_000), fixed(500_000)),
            competitor_sabotage: ManipulationTactic::idle(fixed(800_000), fixed(700_000)),
            price_multiplier: fixed(1_000_000),
            loss_leader: false,
            premium_positioning: false,
            pr_intensity: fixed(0),
            crisis_fund: fixed(0),
            media_relationships: fixed(0),
            loyalty_program: 0,
            referral_bonus: fixed(0),
        }
    }

    /// The base of the demand boost: 1.0 plus the weighted contributions
    /// of the five advertising channels and the three tiers of
    /// influencers.
    pub open spec fn reach_base(self) -> Fixed {
        fixed(1_000_000)
            .sum(self.newspaper_ads.pull().product(fixed(1_000)))
            .sum(self.radio_ads.pull().product(fixed(2_000)))
            .sum(self.tv_ads.pull().product(fixed(5_000)))
            .sum(self.internet_ads.pull().product(fixed(3_000)))
            .sum(self.billboard_ads.pull().product(fixed(1_000)))
            .sum(self.micro_influencers.pull().product(fixed(50_000)))
            .sum(self.mid_influencers.pull().product(fixed(100_000)))
            .sum(self.celebrity_endorsement.pull().product(fixed(300_000)))
    }

    /// The total marketing boost to demand: the base, multiplied in turn
    /// by one plus the weighted contribution of each backroom deal and of
    /// each manipulation tactic, by 1.5 for a loss leader and 0.7 for
    /// premium positioning, and by the factors of PR, media relationships,
    /// the loyalty program and the referral bonus.
    pub open spec fn demand_boost(self) -> Fixed {
        self.reach_base()
            .product(one_plus(self.retail_placement.pull(), fixed(100_000)))
            .product(one_plus(self.distributor_deals.pull(), fixed(150_000)))
            .product(one_plus(self.supplier_exclusivity.pull(), fixed(50_000)))
            .product(one_plus(self.consulting_fees.pull(), fixed(200_000)))
            .product(one_plus(self.artificial_scarcity.pull(), fixed(200_000)))
            .product(one_plus(self.astroturfing.pull(), fixed(150_000)))
            .product(one_plus(self.review_manipulation.pull(), fixed(100_000)))
            .product(one_plus(self.competitor_sabotage.pull(), fixed(250_000)))
            .product(if self.loss_leader { fixed(1_500_000) } else { fixed(1_000_000) })
            .product(if self.premium_positioning { fixed(700_000) } else { fixed(1_000_000) })
            .product(one_plus(self.pr_intensity, fixed(100_000)))
            .product(one_plus(self.media_relationships, fixed(200_000)))
            .product(one_plus(Fixed::whole(self.loyalty_program as int), fixed(50_000)))
            .product(one_plus(self.referral_bonus, fixed(1_000)))
    }

    /// The daily marketing costs: the daily spend of each running
    /// campaign, and a thirtieth of the monthly fee of each backroom deal
    /// in force.
    pub open spec fn daily_costs(self) -> Fixed {
        fixed(0)
            .sum(self.newspaper_ads.daily_cost())
            .sum(self.radio_ads.daily_cost())
            .sum(self.tv_ads.daily_cost())
            .sum(self.internet_ads.daily_cost())
            .sum(self.billboard_ads.daily_cost())
            .sum(self.retail_placement.daily_cost())
            .sum(self.distributor_deals.daily_cost())
            .sum(self.supplier_exclusivity.daily_cost())
            .sum(self.consulting_fees.daily_cost())
    }

    /// Calculate the total marketing boost to demand
    pub fn calculate_demand_boost(&self) -> (boost: Fixed)
        ensures
            boost == self.demand_boost(),
    {
        let one = Fixed { raw: 1_000_000 };
        let mut boost = one;

        // Advertising contributions
        boost = boost.saturating_add(weighted(self.newspaper_ads.contribution(), 1_000));
        boost = boost.saturating_add(weighted(self.radio_ads.contribution(), 2_000));
        boost = boost.saturating_add(weighted(self.tv_ads.contribution(), 5_000));
        boost = boost.saturating_add(weighted(self.internet_ads.contribution(), 3_000));
        boost = boost.saturating_add(weighted(self.billboard_ads.contribution(), 1_000));

        // Influencer contributions
        boost = boost.saturating_add(weighted(self.micro_influencers.contribution(), 50_000));
        boost = boost.saturating_add(weighted(self.mid_influencers.contribution(), 100_000));
        boost = boost.saturating_add(weighted(self.celebrity_endorsement.contribution(), 300_000));

        // Backroom deals
        boost = boost.saturating_mul(one_and(self.retail_placement.contribution(), 100_000));
        boost = boost.saturating_mul(one_and(self.distributor_deals.contribution(), 150_000));
        boost = boost.saturating_mul(one_and(self.supplier_exclusivity.contribution(), 50_000));
        boost = boost.saturating_mul(one_and(self.consulting_fees.contribution(), 200_000));

        // Manipulation tactics
        boost = boost.saturating_mul(one_and(self.artificial_scarcity.contribution(), 200_000));
        boost = boost.saturating_mul(one_and(self.astroturfing.contribution(), 150_000));
        boost = boost.saturating_mul(one_and(self.review_manipulation.contribution(), 100_000));
        boost = boost.saturating_mul(one_and(self.competitor_sabotage.contribution(), 250_000));

        // Pricing psychology
        boost = boost.saturating_mul(
            if self.loss_leader {
                Fixed { raw: 1_500_000 }
            } else {
                one
            },
        );
        boost = boost.saturating_mul(
            if self.premium_positioning {
                Fixed { raw: 700_000 }
            } else {
                one
            },
        );

        // PR
        boost = boost.saturating_mul(one_and(self.pr_intensity, 100_000));
        boost = boost.saturating_mul(one_and(self.media_relationships, 200_000));

        // Loyalty
        boost = boost.saturating_mul(
            one_and(Fixed::from_int(self.loyalty_program as i64), 50_000),
        );
        boost = boost.saturating_mul(one_and(self.referral_bonus, 1_000));

        boost
    }

    /// Calculate daily marketing costs
    pub fn calculate_daily_costs(&self) -> (costs: Fixed)
        ensures
            costs == self.daily_costs(),
    {
        let mut costs = Fixed { raw: 0 };

        costs = costs.saturating_add(spend_of(&self.newspaper_ads));
        costs = costs.saturating_add(spend_of(&self.radio_ads));
        costs = costs.saturating_add(spend_of(&self.tv_ads));
        costs = costs.saturating_add(spend_of(&self.internet_ads));
        costs = costs.saturating_add(spend_of(&self.billboard_ads));

        // Monthly costs converted to daily
        costs = costs.saturating_add(fee_of(&self.retail_placement));
        costs = costs.saturating_add(fee_of(&self.distributor_deals));
        costs = costs.saturating_add(fee_of(&self.supplier_exclusivity));
        costs = costs.saturating_add(fee_of(&self.consulting_fees));

        costs
    }
}

/// `value * weight`, for a weight in millionths.
fn weighted(value: Fixed, weight: i64) -> (r: Fixed)
    ensures
        r == value.product(Fixed { raw: weight }),
{
    value.saturating_mul(Fixed { raw: weight })
}

/// `1 + value * weight`, for a weight in millionths.
fn one_and(value: Fixed, weight: i64) -> (r: Fixed)
    ensures
        r == one_plus(value, Fixed { raw: weight }),
{
    (Fixed { raw: 1_000_000 }).saturating_add(value.saturating_mul(Fixed { raw: weight }))
}

/// What a campaign costs a day.
fn spend_of(campaign: &AdvertisingCampaign) -> (r: Fixed)
    ensures
        r == campaign.daily_cost(),
{
    if campaign.active {
        campaign.daily_spend
    } else {
        Fixed { raw: 0 }
    }
}

/// What a backroom deal costs a day.
fn fee_of(deal: &BackroomDeal) -> (r: Fixed)
    ensures
        r == deal.daily_cost(),
{
    if deal.active {
        deal.monthly_cost.saturating_div(Fixed { raw: 30_000_000 })
    } else {
        Fixed { raw: 0 }
    }
}

} // verus!
