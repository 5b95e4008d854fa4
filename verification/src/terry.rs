//! Terry's reactions: when he speaks, and about what.
//!
//! What Terry says is looked up elsewhere, under the name of a trigger.
//! Here stand the rules that pick the trigger and the moment.

use crate::fixed::fixed;
use crate::fixed::Fixed;
use crate::game_state::GameState;
use crate::game_state::MilestoneType;
use crate::thing_type::ThingType;
use vstd::prelude::*;

verus! {

/// Terry's timers.
#[derive(Clone, Copy, Debug, PartialEq, Eq, Structural)]
pub struct TerryState {
    /// How long the current line has been shown, in seconds
    pub line_timer: Fixed,
    /// How long each line is shown
    pub line_duration: Fixed,
    /// Time since the last commentary
    pub commentary_timer: Fixed,
    /// Clicks since last reaction
    pub clicks_since_reaction: u32,
}

impl Default for TerryState {
    /// Nothing shown, nothing counted, and five seconds to each line.
    fn default() -> (state: TerryState)
        ensures
            state == (TerryState {
                line_timer: fixed(0),
                line_duration: fixed(5_000_000),
                commentary_timer: fixed(0),
                clicks_since_reaction: 0,
            }),
    {
        TerryState {
            line_timer: Fixed { raw: 0 },
            line_duration: Fixed { raw: 5_000_000 },
            commentary_timer: Fixed { raw: 0 },
            clicks_since_reaction: 0,
        }
    }
}

/// The trigger of Terry's greeting for the chosen Thing.
pub open spec fn greeting_of(thing: ThingType) -> Seq<char> {
    match thing {
        ThingType::Cheap => "select_cheap"@,
        ThingType::Good => "select_good"@,
        ThingType::Expensive => "select_expensive"@,
        ThingType::Bad => "select_bad"@,
    }
}

/// The trigger of a milestone that Terry has something to say about: the
/// first four of Things produced, and 100 and 1000 in money.
pub open spec fn reaction_to(milestone: MilestoneType) -> Option<Seq<char>> {
    match milestone {
        MilestoneType::ThingsProduced(n) => if n == 10 {
            Some("things_10"@)
        } else if n == 100 {
            Some("things_100"@)
        } else if n == 1000 {
            Some("things_1000"@)
        } else if n == 10000 {
            Some("things_10000"@)
        } else {
            None
        },
        MilestoneType::MoneyEarned(n) => if n == 100 {
            Some("money_100"@)
        } else if n == 1000 {
            Some("money_1000"@)
        } else {
            None
        },
        _ => None,
    }
}

/// The trigger of Terry's commentary on the game as it stands: by the
/// Thing sold, and for Bad Things by whether the reputation is below 1.5.
pub open spec fn commentary_on(game: GameState) -> Seq<char> {
    match game.thing_type {
        Some(ThingType::Cheap) => "cheap_playing"@,
        Some(ThingType::Good) => "good_playing"@,
        Some(ThingType::Expensive) => "expensive_playing"@,
        Some(ThingType::Bad) => if game.reputation@ < 1_500_000 {
            "bad_low_rep"@
        } else {
            "bad_playing"@
        },
        None => "idle"@,
    }
}

/// The trigger of Terry's greeting for the chosen Thing.
pub fn greeting_trigger(thing: ThingType) -> (trigger: &'static str)
    ensures
        trigger@ == greeting_of(thing),
{
    match thing {
        ThingType::Cheap => "select_cheap",
        ThingType::Good => "select_good",
        ThingType::Expensive => "select_expensive",
        ThingType::Bad => "select_bad",
    }
}

/// The trigger of Terry's reaction to a milestone, if he has one.
pub fn milestone_trigger(milestone: MilestoneType) -> (trigger: Option<&'static str>)
    ensures
        match trigger {
            Some(name) => reaction_to(milestone) == Some(name@),
            None => reaction_to(milestone).is_none(),
        },
{
    match milestone {
        MilestoneType::ThingsProduced(10) => Some("things_10"),
        MilestoneType::ThingsProduced(100) => Some("things_100"),
        MilestoneType::ThingsProduced(1000) => Some("things_1000"),
        MilestoneType::ThingsProduced(10000) => Some("things_10000"),
        MilestoneType::MoneyEarned(100) => Some("money_100"),
        MilestoneType::MoneyEarned(1000) => Some("money_1000"),
        _ => None,
    }
}

/// The trigger of Terry's commentary on the game as it stands.
pub fn commentary_trigger(game_state: &GameState) -> (trigger: &'static str)
    ensures
        trigger@ == commentary_on(*game_state),
{
    match game_state.thing_type {
        Some(ThingType::Cheap) => "cheap_playing",
        Some(ThingType::Good) => "good_playing",
        Some(ThingType::Expensive) => "expensive_playing",
        Some(ThingType::Bad) => {
            if game_state.reputation.raw < 1_500_000 {
                "bad_low_rep"
            } else {
                "bad_playing"
            }
        },
        None => "idle",
    }
}

impl TerryState {
    /// Whether commentary is due once `elapsed` more seconds have passed:
    /// the line shown has had its time, and the last commentary is 15
    /// seconds or more ago.
    pub open spec fn commentary_due(self, elapsed: Fixed) -> bool {
        self.line_timer.sum(elapsed)@ >= self.line_duration@ && self.commentary_timer.sum(elapsed)@
            >= 15_000_000
    }

    /// A new line is put up: its time starts to run.
    pub fn line_shown(&mut self)
        ensures
            *final(self) == (TerryState { line_timer: fixed(0), ..*old(self) }),
    {
        self.line_timer = Fixed { raw: 0 };
    }

    /// The greeting is up and a word on the chosen Thing is to follow: the
    /// commentary is made due as soon as the greeting has had its time.
    pub fn queue_commentary(&mut self)
        ensures
            *final(self) == (TerryState {
                commentary_timer: old(self).line_duration.sum(fixed(1_000_000)),
                ..*old(self)
            }),
    {
        self.commentary_timer = self.line_duration.saturating_add(Fixed { raw: 1_000_000 });
    }

    /// Counts a click, and says whether Terry reacts: he does to every
    /// tenth, and the count starts anew.
    pub fn count_click(&mut self) -> (reacts: bool)
        ensures
            reacts == (old(self).clicks_since_reaction >= 9),
            *final(self) == (TerryState {
                clicks_since_reaction: if reacts {
                    0
                } else {
                    (old(self).clicks_since_reaction + 1) as u32
                },
                ..*old(self)
            }),
    {
        if self.clicks_since_reaction >= 9 {
            self.clicks_since_reaction = 0;
            true
        } else {
            self.clicks_since_reaction = self.clicks_since_reaction + 1;
            false
        }
    }

    /// Lets `elapsed` seconds pass on both timers, and says whether
    /// commentary is due; where it is, the time to the next starts to run.
    pub fn pass_time(&mut self, elapsed: Fixed) -> (due: bool)
        ensures
            due == old(self).commentary_due(elapsed),
            *final(self) == (TerryState {
                line_timer: old(self).line_timer.sum(elapsed),
                commentary_timer: if due {
                    fixed(0)
                } else {
                    old(self).commentary_timer.sum(elapsed)
                },
                ..*old(self)
            }),
    {
        self.line_timer = self.line_timer.saturating_add(elapsed);
        self.commentary_timer = self.commentary_timer.saturating_add(elapsed);
        if self.line_timer.raw >= self.line_duration.raw && self.commentary_timer.raw >= 15_000_000 {
            self.commentary_timer = Fixed { raw: 0 };
            true
        } else {
            false
        }
    }
}

} // verus!
