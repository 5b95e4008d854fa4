use thing_simulator::dialogue::add_fallback_lines;
use thing_simulator::dialogue::DialogueDatabase;
use thing_simulator::dialogue::DialogueLine;
use thing_simulator::dialogue::FALLBACK_LINES;
use thing_simulator::display::reputation_stars;
use thing_simulator::display::SelectionStage;
use thing_simulator::display::SelectionTimer;
use thing_simulator::fixed::Fixed;
use thing_simulator::game_state::GameState;
use thing_simulator::game_state::MilestoneType;
use thing_simulator::terry::commentary_trigger;
use thing_simulator::terry::greeting_trigger;
use thing_simulator::terry::milestone_trigger;
use thing_simulator::terry::TerryState;
use thing_simulator::thing_type::ThingType;

fn line(id: &str, trigger: &str) -> DialogueLine {
    DialogueLine {
        id: id.to_string(),
        trigger: trigger.to_string(),
        text: format!("text of {}", id),
        mood: String::new(),
    }
}

#[test]
fn terry_greets_each_thing() {
    assert_eq!(greeting_trigger(ThingType::Cheap), "select_cheap");
    assert_eq!(greeting_trigger(ThingType::Good), "select_good");
    assert_eq!(greeting_trigger(ThingType::Expensive), "select_expensive");
    assert_eq!(greeting_trigger(ThingType::Bad), "select_bad");
}

#[test]
fn terry_reacts_to_some_milestones() {
    assert_eq!(milestone_trigger(MilestoneType::ThingsProduced(10)), Some("things_10"));
    assert_eq!(milestone_trigger(MilestoneType::ThingsProduced(100)), Some("things_100"));
    assert_eq!(milestone_trigger(MilestoneType::ThingsProduced(1000)), Some("things_1000"));
    assert_eq!(milestone_trigger(MilestoneType::ThingsProduced(10000)), Some("things_10000"));
    assert_eq!(milestone_trigger(MilestoneType::ThingsProduced(100000)), None);
    assert_eq!(milestone_trigger(MilestoneType::ThingsProduced(11)), None);
    assert_eq!(milestone_trigger(MilestoneType::MoneyEarned(10)), None);
    assert_eq!(milestone_trigger(MilestoneType::MoneyEarned(100)), Some("money_100"));
    assert_eq!(milestone_trigger(MilestoneType::MoneyEarned(1000)), Some("money_1000"));
    assert_eq!(milestone_trigger(MilestoneType::MoneyEarned(10000)), None);
    assert_eq!(milestone_trigger(MilestoneType::CustomersServed(100)), None);
    assert_eq!(milestone_trigger(MilestoneType::ReputationReached(5)), None);
}

#[test]
fn terry_comments_on_the_thing_sold() {
    let mut game = GameState::default();
    assert_eq!(commentary_trigger(&game), "idle");
    game.thing_type = Some(ThingType::Cheap);
    assert_eq!(commentary_trigger(&game), "cheap_playing");
    game.thing_type = Some(ThingType::Good);
    assert_eq!(commentary_trigger(&game), "good_playing");
    game.thing_type = Some(ThingType::Expensive);
    assert_eq!(commentary_trigger(&game), "expensive_playing");
    game.thing_type = Some(ThingType::Bad);
    assert_eq!(commentary_trigger(&game), "bad_playing");
    game.reputation = Fixed { raw: 1_500_000 };
    assert_eq!(commentary_trigger(&game), "bad_playing");
    game.reputation = Fixed { raw: 1_499_999 };
    assert_eq!(commentary_trigger(&game), "bad_low_rep");
    game.thing_type = Some(ThingType::Good);
    assert_eq!(commentary_trigger(&game), "good_playing");
}

#[test]
fn terry_starts_with_five_seconds_a_line() {
    assert_eq!(TerryState::default(), TerryState {
        line_timer: Fixed { raw: 0 },
        line_duration: Fixed { raw: 5_000_000 },
        commentary_timer: Fixed { raw: 0 },
        clicks_since_reaction: 0,
    });
}

#[test]
fn terry_reacts_to_every_tenth_click() {
    let mut terry = TerryState::default();
    let mut reactions = Vec::new();
    for click in 1..=35 {
        if terry.count_click() {
            reactions.push(click);
        }
    }
    assert_eq!(reactions, vec![10, 20, 30]);
    assert_eq!(terry.clicks_since_reaction, 5);
}

#[test]
fn commentary_waits_for_the_line_and_for_fifteen_seconds() {
    let mut terry = TerryState::default();
    for _ in 0..14 {
        assert!(!terry.pass_time(Fixed { raw: 1_000_000 }));
    }
    assert_eq!(terry.commentary_timer, Fixed { raw: 14_000_000 });
    assert!(terry.pass_time(Fixed { raw: 1_000_000 }));
    assert_eq!(terry.commentary_timer, Fixed { raw: 0 });
    assert_eq!(terry.line_timer, Fixed { raw: 15_000_000 });

    // a line just put up holds the commentary back
    terry.commentary_timer = Fixed { raw: 20_000_000 };
    terry.line_shown();
    assert_eq!(terry.line_timer, Fixed { raw: 0 });
    assert!(!terry.pass_time(Fixed { raw: 4_999_999 }));
    assert_eq!(terry.commentary_timer, Fixed { raw: 24_999_999 });
    assert!(terry.pass_time(Fixed { raw: 1 }));
    assert_eq!(terry.commentary_timer, Fixed { raw: 0 });
}

#[test]
fn the_greeting_queues_a_word_on_the_thing() {
    let mut terry = TerryState::default();
    terry.line_shown();
    terry.queue_commentary();
    assert_eq!(terry.commentary_timer, Fixed { raw: 6_000_000 });
    // due only once the fifteen seconds are over as well
    assert!(!terry.pass_time(Fixed { raw: 5_000_000 }));
    assert!(!terry.pass_time(Fixed { raw: 3_999_999 }));
    assert!(terry.pass_time(Fixed { raw: 1 }));
}

#[test]
fn patience_wears_with_the_minutes() {
    let mut timer = SelectionTimer::default();
    assert_eq!(timer.stage, SelectionStage::Initial);
    assert_eq!(timer.update(Fixed { raw: 59_999_999 }), None);
    assert_eq!(timer.update(Fixed { raw: 1 }), Some(SelectionStage::Impatient));
    assert_eq!(timer.stage, SelectionStage::Impatient);
    assert_eq!(timer.update(Fixed { raw: 60_000_000 }), None);
    assert_eq!(timer.update(Fixed { raw: 3_479_999_999 }), None);
    assert_eq!(timer.update(Fixed { raw: 1 }), Some(SelectionStage::Furious));
    assert_eq!(timer.elapsed, Fixed { raw: 3_600_000_000 });
    assert_eq!(timer.update(Fixed { raw: 1_000_000 }), None);
    assert_eq!(timer.stage, SelectionStage::Furious);
}

#[test]
fn an_hour_at_once_makes_terry_furious() {
    let mut timer = SelectionTimer::default();
    assert_eq!(timer.update(Fixed { raw: 4_000_000_000 }), Some(SelectionStage::Furious));
    assert_eq!(timer.update(Fixed { raw: -3_990_000_000 }), Some(SelectionStage::Initial));
}

#[test]
fn reputation_shows_as_stars() {
    assert_eq!(reputation_stars(Fixed { raw: 0 }), "☆☆☆☆☆");
    assert_eq!(reputation_stars(Fixed { raw: 999_999 }), "☆☆☆☆☆");
    assert_eq!(reputation_stars(Fixed { raw: 1_000_000 }), "★☆☆☆☆");
    assert_eq!(reputation_stars(Fixed { raw: 2_500_000 }), "★★☆☆☆");
    assert_eq!(reputation_stars(Fixed { raw: 4_700_000 }), "★★★★☆");
    assert_eq!(reputation_stars(Fixed { raw: 5_000_000 }), "★★★★★");
    assert_eq!(reputation_stars(Fixed { raw: 5_499_999 }), "★★★★★");
    assert_eq!(reputation_stars(Fixed { raw: -3_000_000 }), "☆☆☆☆☆");
}

#[test]
fn an_empty_database_has_no_line() {
    let database = DialogueDatabase::default();
    assert!(database.is_empty());
    assert_eq!(database.get_for_trigger("click", 7), None);
}

#[test]
fn lines_are_kept_in_the_order_added() {
    let mut database = DialogueDatabase::default();
    database.add_line(line("a", "click"));
    database.add_line(line("b", "idle"));
    database.add_line(line("c", "click"));
    assert!(!database.is_empty());
    assert_eq!(database.lines, vec![line("a", "click"), line("b", "idle"), line("c", "click")]);
}

#[test]
fn the_number_picks_among_the_lines_of_the_trigger() {
    let mut database = DialogueDatabase::default();
    database.add_line(line("a", "click"));
    database.add_line(line("b", "idle"));
    database.add_line(line("c", "click"));
    database.add_line(line("d", "click"));
    database.add_line(line("e", "game_start"));
    let picked: Vec<&str> = (0..7)
        .map(|chance| database.get_for_trigger("click", chance).unwrap().id.as_str())
        .collect();
    assert_eq!(picked, vec!["a", "c", "d", "a", "c", "d", "a"]);
    assert_eq!(database.get_for_trigger("idle", 0), Some(&line("b", "idle")));
    assert_eq!(database.get_for_trigger("idle", 12_345), Some(&line("b", "idle")));
    assert_eq!(database.get_for_trigger("game_start", usize::MAX), Some(&line("e", "game_start")));
    assert_eq!(database.get_for_trigger("things_10", 3), None);
    assert_eq!(database.get_for_trigger("", 3), None);
    assert_eq!(database.get_for_trigger("clic", 3), None);
}

#[test]
fn lines_with_one_id_both_stay() {
    let mut database = DialogueDatabase::default();
    database.add_line(line("same", "click"));
    database.add_line(line("same", "click"));
    assert_eq!(database.lines.len(), 2);
    assert!(database.get_for_trigger("click", 1).is_some());
}

#[test]
fn the_fallback_lines_are_fifteen() {
    let mut database = DialogueDatabase::default();
    add_fallback_lines(&mut database);
    assert_eq!(database.lines.len(), 15);
    for (row, added) in database.lines.iter().enumerate() {
        assert_eq!(added.id, FALLBACK_LINES[row][0]);
        assert_eq!(added.trigger, FALLBACK_LINES[row][1]);
        assert_eq!(added.text, FALLBACK_LINES[row][2]);
        assert_eq!(added.mood, FALLBACK_LINES[row][3]);
    }
    assert_eq!(database.lines[0].id, "generic_greeting");
    assert_eq!(database.lines[0].trigger, "game_start");
    assert_eq!(database.lines[0].mood, "neutral");
    assert_eq!(
        database.lines[14].text,
        "Our reputation is tanking. This is fine. Everything is fine. *sweats mustard*"
    );
    assert_eq!(database.get_for_trigger("things_100", 99).unwrap().id, "milestone_100");
}

#[test]
fn the_fallback_lines_follow_what_is_there() {
    let mut database = DialogueDatabase::default();
    database.add_line(line("loaded", "click"));
    add_fallback_lines(&mut database);
    assert_eq!(database.lines.len(), 16);
    assert_eq!(database.lines[0], line("loaded", "click"));
    assert_eq!(database.get_for_trigger("click", 0).unwrap().id, "loaded");
    assert_eq!(database.get_for_trigger("click", 1).unwrap().id, "generic_click");
}

#[test]
fn terry_has_a_fallback_line_for_what_he_reacts_to() {
    let mut database = DialogueDatabase::default();
    add_fallback_lines(&mut database);
    for thing in [ThingType::Cheap, ThingType::Good, ThingType::Expensive, ThingType::Bad] {
        assert!(database.get_for_trigger(greeting_trigger(thing), 0).is_some());
        let mut game = GameState::default();
        game.thing_type = Some(thing);
        assert!(database.get_for_trigger(commentary_trigger(&game), 0).is_some());
    }
    for trigger in ["game_start", "click", "idle", "bad_low_rep", "things_10", "things_1000"] {
        assert!(database.get_for_trigger(trigger, 0).is_some());
    }
    // the later milestones have no line of their own
    assert_eq!(database.get_for_trigger("things_10000", 0), None);
    assert_eq!(database.get_for_trigger("money_100", 0), None);
}
