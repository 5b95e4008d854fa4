//! Small rules of the screens: the stars of the reputation, and Terry's
//! patience while the player chooses.

use crate::fixed::fixed;
use crate::fixed::Fixed;
use vstd::prelude::*;
use vstd::string::StringExecFns;

verus! {

/// How far Terry's patience has worn while the player chooses a Thing.
#[derive(Clone, Copy, Debug, PartialEq, Eq, Structural)]
pub enum SelectionStage {
    Initial,
    /// After 60 seconds
    Impatient,
    /// After 3600 seconds
    Furious,
}

/// Tracks how long the player has been looking at the selection screen.
#[derive(Clone, Copy, Debug, PartialEq, Eq, Structural)]
pub struct SelectionTimer {
    pub elapsed: Fixed,
    pub stage: SelectionStage,
}

impl Default for SelectionTimer {
    fn default() -> (timer: SelectionTimer)
        ensures
            timer == (SelectionTimer { elapsed: fixed(0), stage: SelectionStage::Initial }),
    {
        SelectionTimer { elapsed: Fixed { raw: 0 }, stage: SelectionStage::Initial }
    }
}

/// The stage after `elapsed` seconds: furious from an hour on, impatient
/// from a minute on.
pub open spec fn stage_after(elapsed: Fixed) -> SelectionStage {
    if elapsed@ >= 3_600_000_000 {
        SelectionStage::Furious
    } else if elapsed@ >= 60_000_000 {
        SelectionStage::Impatient
    } else {
        SelectionStage::Initial
    }
}

/// The stars of a reputation: a full star for each whole point, and
/// hollow ones up to five.
pub open spec fn stars(reputation: Fixed) -> Seq<char> {
    let full = if reputation@ < 0 {
        0
    } else {
        reputation.floor()
    };
    Seq::new(5, |i: int| if i < full { '\u{2605}' } else { '\u{2606}' })
}

impl SelectionTimer {
    /// Lets `elapsed` more seconds pass, and gives the new stage where
    /// the stage changed.
    pub fn update(&mut self, elapsed: Fixed) -> (changed: Option<SelectionStage>)
        ensures
            final(self).elapsed == old(self).elapsed.sum(elapsed),
            final(self).stage == stage_after(final(self).elapsed),
            changed == if final(self).stage != old(self).stage {
                Some(final(self).stage)
            } else {
                None
            },
    {
        self.elapsed = self.elapsed.saturating_add(elapsed);
        let stage = if self.elapsed.raw >= 3_600_000_000 {
            SelectionStage::Furious
        } else if self.elapsed.raw >= 60_000_000 {
            SelectionStage::Impatient
        } else {
            SelectionStage::Initial
        };
        if stage != self.stage {
            self.stage = stage;
            Some(stage)
        } else {
            None
        }
    }
}

/// The reputation as five stars.
pub fn reputation_stars(reputation: Fixed) -> (text: String)
    requires
        reputation@ < 5_500_000,
    ensures
        text@ == stars(reputation),
{
    let full: i64 = if reputation.raw < 0 {
        0
    } else {
        reputation.floor_units()
    };
    let mut text = String::new();
    let mut i: i64 = 0;
    proof {
        reveal_strlit("\u{2605}");
        reveal_strlit("\u{2606}");
    }
    while i < 5
        invariant
            0 <= i <= 5,
            0 <= full <= 5,
            text@ == Seq::new(i as nat, |k: int| if k < full { '\u{2605}' } else { '\u{2606}' }),
            "\u{2605}"@ == seq!['\u{2605}'],
            "\u{2606}"@ == seq!['\u{2606}'],
        decreases 5 - i,
    {
        if i < full {
            text.append("\u{2605}");
        } else {
            text.append("\u{2606}");
        }
        i = i + 1;
        assert(text@ =~= Seq::new(
            i as nat,
            |k: int| if k < full { '\u{2605}' } else { '\u{2606}' },
        ));
    }
    assert(text@ =~= stars(reputation));
    text
}

} // verus!
