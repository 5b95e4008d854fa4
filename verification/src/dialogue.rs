//! Terry's lines, kept by trigger.
//!
//! The database holds the lines in the order in which they were added. A
//! trigger may have many lines; one of them is picked by a number that the
//! caller brings.

use vstd::prelude::*;
use vstd::string::StringExecFns;

verus! {

/// The lines that Terry falls back on where no others were loaded, each
/// as id, trigger, text and mood.
pub const FALLBACK_LINES: [[&'static str; 4]; 15] = [
    [
        "generic_greeting",
        "game_start",
        "Welcome to Thing Simulator 2012! I'm Terry. Yes, I'm a hot dog. Yes, I have an MBA. Your mother asked me to help you with this.",
        "neutral",
    ],
    [
        "generic_click",
        "click",
        "That's the spirit! Every Thing counts. Your mother would be proud.",
        "happy",
    ],
    [
        "generic_idle",
        "idle",
        "You know what they say in business school? 'Time is money.' I learned that before they realized I was a hot dog.",
        "thoughtful",
    ],
    [
        "milestone_10",
        "things_10",
        "10 Things! That's what I call a proof of concept. Your mother will be thrilled.",
        "happy",
    ],
    [
        "milestone_100",
        "things_100",
        "100 Things! We're really cooking now. Pun absolutely intended.",
        "excited",
    ],
    [
        "milestone_1000",
        "things_1000",
        "1,000 Things! This is what we call 'scaling' in the business. I'm a scaling hot dog!",
        "excited",
    ],
    [
        "cheap_select",
        "select_cheap",
        "Cheap Things? Bold strategy. Volume is key. Your mother would approve - she loves a bargain.",
        "skeptical",
    ],
    [
        "cheap_advice",
        "cheap_playing",
        "Remember: when selling cheap, it's all about turnover. Like a rotisserie. Like... never mind.",
        "helpful",
    ],
    [
        "good_select",
        "select_good",
        "A Good Thing! Quality over quantity. Very noble. Very slow. But noble.",
        "approving",
    ],
    [
        "good_advice",
        "good_playing",
        "Quality builds reputation. Reputation builds trust. Trust builds... the ability to charge more.",
        "wise",
    ],
    [
        "expensive_select",
        "select_expensive",
        "Expensive Things! Luxury positioning. I learned about this at Wharton. Well, I read about Wharton. In a dumpster behind Wharton.",
        "impressed",
    ],
    [
        "expensive_advice",
        "expensive_playing",
        "In the luxury market, scarcity creates value. Like hot dogs with business degrees.",
        "sophisticated",
    ],
    [
        "bad_select",
        "select_bad",
        "Bad Things? Oh. Oh no. This is... this is exactly what my ethics professor warned me about. He was a bratwurst.",
        "concerned",
    ],
    [
        "bad_advice",
        "bad_playing",
        "I'm not saying this is wrong, but I'm definitely taking notes for my parole hearing.",
        "nervous",
    ],
    [
        "bad_reputation_low",
        "bad_low_rep",
        "Our reputation is tanking. This is fine. Everything is fine. *sweats mustard*",
        "panicked",
    ],
];

/// A single dialogue line.
#[derive(Clone, Debug, PartialEq, Eq)]
pub struct DialogueLine {
    pub id: String,
    pub trigger: String,
    pub text: String,
    pub mood: String,
}

/// Collection of dialogue lines, as a file holds them.
#[derive(Clone, Debug, PartialEq, Eq)]
pub struct DialogueFile {
    pub lines: Vec<DialogueLine>,
}

/// All loaded dialogues.
#[derive(Debug)]
pub struct DialogueDatabase {
    /// All lines, in the order in which they were added.
    pub lines: Vec<DialogueLine>,
}

impl Default for DialogueDatabase {
    fn default() -> (database: DialogueDatabase)
        ensures
            database.lines@.len() == 0,
    {
        DialogueDatabase { lines: Vec::new() }
    }
}

/// Number of lines for `trigger` among `lines`.
pub open spec fn count_matches(lines: Seq<DialogueLine>, trigger: Seq<char>) -> nat
    decreases lines.len(),
{
    if lines.len() == 0 {
        0
    } else {
        count_matches(lines.drop_last(), trigger) + if lines.last().trigger@ == trigger {
            1nat
        } else {
            0nat
        }
    }
}

/// Whether the line at `index` is the line for `trigger` that has exactly
/// `n` lines for `trigger` before it.
pub open spec fn is_nth_match(lines: Seq<DialogueLine>, trigger: Seq<char>, n: nat, index: int) -> bool {
    &&& 0 <= index < lines.len()
    &&& lines[index].trigger@ == trigger
    &&& count_matches(lines.take(index), trigger) == n
}

/// Whether `line` is the fallback line of the row `row`.
pub open spec fn is_fallback_line(line: DialogueLine, row: int) -> bool
    recommends
        0 <= row < 15,
{
    &&& line.id@ == FALLBACK_LINES[row][0]@
    &&& line.trigger@ == FALLBACK_LINES[row][1]@
    &&& line.text@ == FALLBACK_LINES[row][2]@
    &&& line.mood@ == FALLBACK_LINES[row][3]@
}

impl DialogueDatabase {
    /// Whether `found` is what a pick by `chance` finds for `trigger`:
    /// nothing where the trigger has no line, else, of its lines in their
    /// order, the one at `chance` modulo their number.
    pub open spec fn picks(self, trigger: Seq<char>, chance: nat, found: Option<&DialogueLine>) -> bool {
        let count = count_matches(self.lines@, trigger);
        match found {
            Some(line) => count > 0 && exists|index: int|
                is_nth_match(self.lines@, trigger, chance % count, index) && *line
                    == self.lines@[index],
            None => count == 0,
        }
    }

    /// Whether no line has been added.
    pub fn is_empty(&self) -> (empty: bool)
        ensures
            empty == (self.lines@.len() == 0),
    {
        self.lines.len() == 0
    }

    /// Get a line for a trigger: of the trigger's lines, the one that the
    /// number `chance` picks. With a number that changes from call to
    /// call, such as a reading of the clock, the line is a random one.
    pub fn get_for_trigger(&self, trigger: &str, chance: usize) -> (found: Option<&DialogueLine>)
        ensures
            self.picks(trigger@, chance as nat, found),
    {
        let wanted = String::from_str(trigger);
        let mut count: usize = 0;
        let mut i: usize = 0;
        while i < self.lines.len()
            invariant
                i <= self.lines.len(),
                count <= i,
                wanted@ == trigger@,
                count == count_matches(self.lines@.take(i as int), trigger@),
            decreases self.lines.len() - i,
        {
            assert(self.lines@.take(i + 1).drop_last() == self.lines@.take(i as int));
            if self.lines[i].trigger == wanted {
                count = count + 1;
            }
            i = i + 1;
        }
        assert(self.lines@.take(i as int) == self.lines@);
        if count == 0 {
            return None;
        }
        let nth = chance % count;
        let mut seen: usize = 0;
        let mut j: usize = 0;
        while j < self.lines.len()
            invariant
                j <= self.lines.len(),
                wanted@ == trigger@,
                seen == count_matches(self.lines@.take(j as int), trigger@),
                seen <= nth < count,
                count == count_matches(self.lines@, trigger@),
                nth == chance % count,
            decreases self.lines.len() - j,
        {
            assert(self.lines@.take(j + 1).drop_last() == self.lines@.take(j as int));
            if self.lines[j].trigger == wanted {
                if seen == nth {
                    assert(is_nth_match(self.lines@, trigger@, nth as nat, j as int));
                    return Some(&self.lines[j]);
                }
                seen = seen + 1;
            }
            j = j + 1;
        }
        proof {
            assert(self.lines@.take(j as int) == self.lines@);
            assert(false);
        }
        None
    }

    /// Add a dialogue line.
    pub fn add_line(&mut self, line: DialogueLine)
        ensures
            final(self).lines@ == old(self).lines@.push(line),
    {
        self.lines.push(line);
    }
}

/// Add the fallback dialogue lines, in their order.
pub fn add_fallback_lines(db: &mut DialogueDatabase)
    ensures
        final(db).lines@.len() == old(db).lines@.len() + 15,
        final(db).lines@.take(old(db).lines@.len() as int) == old(db).lines@,
        forall|row: int|
            0 <= row < 15 ==> is_fallback_line(
                #[trigger] final(db).lines@[old(db).lines@.len() + row],
                row,
            ),
{
    let mut row: usize = 0;
    while row < 15
        invariant
            row <= 15,
            db.lines@.len() == old(db).lines@.len() + row,
            db.lines@.take(old(db).lines@.len() as int) == old(db).lines@,
            forall|k: int|
                0 <= k < row ==> is_fallback_line(#[trigger] db.lines@[old(db).lines@.len() + k], k),
        decreases 15 - row,
    {
        let entry = FALLBACK_LINES[row];
        let ghost before = db.lines@;
        db.add_line(
            DialogueLine {
                id: String::from_str(entry[0]),
                trigger: String::from_str(entry[1]),
                text: String::from_str(entry[2]),
                mood: String::from_str(entry[3]),
            },
        );
        assert(db.lines@.take(old(db).lines@.len() as int) == before.take(
            old(db).lines@.len() as int,
        ));
        assert forall|k: int| 0 <= k < row + 1 implies is_fallback_line(
            #[trigger] db.lines@[old(db).lines@.len() + k],
            k,
        ) by {
            if k < row {
                assert(db.lines@[old(db).lines@.len() + k] == before[old(db).lines@.len() + k]);
            }
        }
        row = row + 1;
    }
}

/// A pick names one line. Two places in the same lines that are both the
/// `n`-th line for a trigger are the same place.
pub proof fn lemma_nth_match_is_one(
    lines: Seq<DialogueLine>,
    trigger: Seq<char>,
    n: nat,
    first: int,
    second: int,
)
    requires
        is_nth_match(lines, trigger, n, first),
        is_nth_match(lines, trigger, n, second),
    ensures
        first == second,
{
    if first < second {
        lemma_matches_grow(lines, trigger, first + 1, second);
        assert(lines.take(first + 1).drop_last() == lines.take(first));
    } else if second < first {
        lemma_matches_grow(lines, trigger, second + 1, first);
        assert(lines.take(second + 1).drop_last() == lines.take(second));
    }
}

/// A longer start of the lines has no fewer lines for a trigger.
pub proof fn lemma_matches_grow(lines: Seq<DialogueLine>, trigger: Seq<char>, shorter: int, longer: int)
    requires
        0 <= shorter <= longer <= lines.len(),
    ensures
        count_matches(lines.take(shorter), trigger) <= count_matches(lines.take(longer), trigger),
    decreases longer - shorter,
{
    if shorter < longer {
        lemma_matches_grow(lines, trigger, shorter, longer - 1);
        assert(lines.take(longer).drop_last() == lines.take(longer - 1));
    }
}

} // verus!
