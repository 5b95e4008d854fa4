//! The four types of Things you can sell.

use crate::fixed::fixed;
use crate::fixed::Fixed;
use vstd::prelude::*;

verus! {

/// The type of Thing the player is selling.
#[derive(Clone, Copy, Debug, PartialEq, Eq, Structural, Hash)]
pub enum ThingType {
    /// High volume, low margins, mass market appeal
    Cheap,
    /// Quality focus, builds reputation slowly, loyal customers
    Good,
    /// Luxury positioning, low volume, heavy marketing needed
    Expensive,
    /// Scam mode, quick cash, reputation crashes
    Bad,
}

impl Default for ThingType {
    fn default() -> (thing: ThingType)
        ensures
            thing == ThingType::Cheap,
    {
        ThingType::Cheap
    }
}

impl ThingType {
    /// Base price per Thing: 0.50, 5, 50 and 10.
    pub open spec fn price(self) -> Fixed {
        match self {
            ThingType::Cheap => fixed(500_000),
            ThingType::Good => fixed(5_000_000),
            ThingType::Expensive => fixed(50_000_000),
            ThingType::Bad => fixed(10_000_000),
        }
    }

    /// Production speed multiplier: 2, 1, 0.5 and 1.5.
    pub open spec fn production(self) -> Fixed {
        match self {
            ThingType::Cheap => fixed(2_000_000),
            ThingType::Good => fixed(1_000_000),
            ThingType::Expensive => fixed(500_000),
            ThingType::Bad => fixed(1_500_000),
        }
    }

    /// Customer volume multiplier: 2, 1, 0.3 and 1.5.
    pub open spec fn customers(self) -> Fixed {
        match self {
            ThingType::Cheap => fixed(2_000_000),
            ThingType::Good => fixed(1_000_000),
            ThingType::Expensive => fixed(300_000),
            ThingType::Bad => fixed(1_500_000),
        }
    }

    /// Reputation change per sale: 0.001, 0.01, 0.005 and -0.02.
    pub open spec fn sale_reputation(self) -> Fixed {
        match self {
            ThingType::Cheap => fixed(1_000),
            ThingType::Good => fixed(10_000),
            ThingType::Expensive => fixed(5_000),
            ThingType::Bad => fixed(-20_000),
        }
    }

    /// Passive reputation decay per second: 0.005 for Bad Things, none
    /// for the others.
    pub open spec fn decay(self) -> Fixed {
        match self {
            ThingType::Bad => fixed(5_000),
            _ => fixed(0),
        }
    }

    /// Display name.
    pub open spec fn name_text(self) -> Seq<char> {
        match self {
            ThingType::Cheap => "Cheap"@,
            ThingType::Good => "Good"@,
            ThingType::Expensive => "Expensive"@,
            ThingType::Bad => "Bad"@,
        }
    }

    /// Description for the selection screen.
    pub open spec fn description_text(self) -> Seq<char> {
        match self {
            ThingType::Cheap => "High volume, low margins. The people's Thing."@,
            ThingType::Good => "Quality craftsmanship. Slow and steady wins the race."@,
            ThingType::Expensive => "Luxury positioning. For the discerning Thing enthusiast."@,
            ThingType::Bad => "Quick cash. What could possibly go wrong?"@,
        }
    }

    /// Base price per Thing
    pub fn base_price(&self) -> (price: Fixed)
        ensures
            price == self.price(),
    {
        match self {
            ThingType::Cheap => Fixed { raw: 500_000 },
            ThingType::Good => Fixed { raw: 5_000_000 },
            ThingType::Expensive => Fixed { raw: 50_000_000 },
            ThingType::Bad => Fixed { raw: 10_000_000 },
        }
    }

    /// Production speed multiplier
    pub fn production_multiplier(&self) -> (multiplier: Fixed)
        ensures
            multiplier == self.production(),
    {
        match self {
            ThingType::Cheap => Fixed { raw: 2_000_000 },
            ThingType::Good => Fixed { raw: 1_000_000 },
            ThingType::Expensive => Fixed { raw: 500_000 },
            ThingType::Bad => Fixed { raw: 1_500_000 },
        }
    }

    /// Customer volume multiplier (how many customers come)
    pub fn customer_multiplier(&self) -> (multiplier: Fixed)
        ensures
            multiplier == self.customers(),
    {
        match self {
            ThingType::Cheap => Fixed { raw: 2_000_000 },
            ThingType::Good => Fixed { raw: 1_000_000 },
            ThingType::Expensive => Fixed { raw: 300_000 },
            ThingType::Bad => Fixed { raw: 1_500_000 },
        }
    }

    /// Reputation change per sale
    pub fn reputation_per_sale(&self) -> (change: Fixed)
        ensures
            change == self.sale_reputation(),
    {
        match self {
            ThingType::Cheap => Fixed { raw: 1_000 },
            ThingType::Good => Fixed { raw: 10_000 },
            ThingType::Expensive => Fixed { raw: 5_000 },
            ThingType::Bad => Fixed { raw: -20_000 },
        }
    }

    /// Passive reputation decay per second
    pub fn reputation_decay(&self) -> (decay: Fixed)
        ensures
            decay == self.decay(),
    {
        match self {
            ThingType::Bad => Fixed { raw: 5_000 },
            _ => Fixed { raw: 0 },
        }
    }

    /// Display name
    pub fn name(&self) -> (name: &'static str)
        ensures
            name@ == self.name_text(),
    {
        match self {
            ThingType::Cheap => "Cheap",
            ThingType::Good => "Good",
            ThingType::Expensive => "Expensive",
            ThingType::Bad => "Bad",
        }
    }

    /// Description for selection screen
    pub fn description(&self) -> (description: &'static str)
        ensures
            description@ == self.description_text(),
    {
        match self {
            ThingType::Cheap => "High volume, low margins. The people's Thing.",
            ThingType::Good => "Quality craftsmanship. Slow and steady wins the race.",
            ThingType::Expensive => "Luxury positioning. For the discerning Thing enthusiast.",
            ThingType::Bad => "Quick cash. What could possibly go wrong?",
        }
    }
}

} // verus!
