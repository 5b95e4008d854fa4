use thing_simulator::clicker::auto_produce;
use thing_simulator::clicker::handle_click;
use thing_simulator::clicker::AutoProductionAccumulator;
use thing_simulator::clicker::THING;
use thing_simulator::fixed::Fixed;
use thing_simulator::game_state::GameState;
use thing_simulator::game_state::ThingProducedEvent;
use thing_simulator::thing_type::ThingType;

fn producing(thing: Option<ThingType>, per_second: i64) -> GameState {
    let mut game = GameState::default();
    game.thing_type = thing;
    game.things_per_second = Fixed { raw: per_second };
    game
}

#[test]
fn nothing_is_made_without_a_rate() {
    let mut game = producing(Some(ThingType::Cheap), 0);
    let mut accumulator = AutoProductionAccumulator::default();
    assert_eq!(auto_produce(&mut game, &mut accumulator, Fixed { raw: 60_000_000 }), None);
    assert_eq!(game, producing(Some(ThingType::Cheap), 0));
    assert_eq!(accumulator.accumulated, 0);
    let mut game = producing(Some(ThingType::Cheap), -1_000_000);
    assert_eq!(auto_produce(&mut game, &mut accumulator, Fixed { raw: 60_000_000 }), None);
    assert_eq!(accumulator.accumulated, 0);
    assert_eq!(game.things_produced, 0);
}

#[test]
fn parts_of_a_thing_are_carried() {
    // half a Thing a second, doubled for Cheap Things
    let mut game = producing(Some(ThingType::Cheap), 500_000);
    let mut accumulator = AutoProductionAccumulator::default();
    assert_eq!(auto_produce(&mut game, &mut accumulator, Fixed { raw: 16_000 }), None);
    assert_eq!(accumulator.accumulated, 16_000_000_000);
    assert_eq!(game.things_produced, 0);
    assert_eq!(auto_produce(&mut game, &mut accumulator, Fixed { raw: 984_000 }), Some(
        ThingProducedEvent { amount: 1, from_click: false },
    ));
    assert_eq!(accumulator.accumulated, 0);
    assert_eq!(game.things_produced, 1);
    assert_eq!(auto_produce(&mut game, &mut accumulator, Fixed { raw: 3_750_000 }), Some(
        ThingProducedEvent { amount: 3, from_click: false },
    ));
    assert_eq!(accumulator.accumulated, 750_000_000_000);
    assert_eq!(game.things_produced, 4);
}

#[test]
fn the_thing_sets_the_speed() {
    let expected = [
        (Some(ThingType::Cheap), 20u64),
        (Some(ThingType::Good), 10),
        (Some(ThingType::Expensive), 5),
        (Some(ThingType::Bad), 15),
        (None, 10),
    ];
    for (thing, things) in expected {
        let mut game = producing(thing, 1_000_000);
        let mut accumulator = AutoProductionAccumulator::default();
        let event = auto_produce(&mut game, &mut accumulator, Fixed { raw: 10_000_000 });
        assert_eq!(event, Some(ThingProducedEvent { amount: things, from_click: false }));
        assert_eq!(game.things_produced, things);
        assert_eq!(accumulator.accumulated, 0);
    }
}

#[test]
fn auto_production_touches_only_the_count() {
    let mut game = producing(Some(ThingType::Good), 2_500_000);
    game.money = Fixed { raw: 12_345 };
    game.customers_served = 9;
    let before = game;
    let mut accumulator = AutoProductionAccumulator::default();
    auto_produce(&mut game, &mut accumulator, Fixed { raw: 2_000_000 });
    let mut expected = before;
    expected.things_produced = 5;
    assert_eq!(game, expected);
}

#[test]
fn ten_short_ticks_make_what_one_long_tick_makes() {
    // 1.5 a second, times 1.5 for Bad Things
    let mut split = producing(Some(ThingType::Bad), 1_500_000);
    let mut split_accumulator = AutoProductionAccumulator::default();
    let mut made = 0;
    for _ in 0..10 {
        if let Some(event) = auto_produce(&mut split, &mut split_accumulator, Fixed { raw: 100_000 }) {
            assert!(!event.from_click);
            made += event.amount;
        }
    }
    let mut whole = producing(Some(ThingType::Bad), 1_500_000);
    let mut whole_accumulator = AutoProductionAccumulator::default();
    let event = auto_produce(&mut whole, &mut whole_accumulator, Fixed { raw: 1_000_000 });
    assert_eq!(made, 2);
    assert_eq!(event.unwrap().amount, 2);
    assert_eq!(split.things_produced, whole.things_produced);
    assert_eq!(split_accumulator.accumulated, 250_000_000_000);
    assert_eq!(split_accumulator, whole_accumulator);
}

#[test]
fn uneven_frames_lose_nothing() {
    let frames = [16_667i64, 33_333, 1, 250_000, 999, 4_000_000, 16_000, 0, 700_001, 123_456];
    let mut total = 0;
    let mut split = producing(Some(ThingType::Expensive), 2_500_000);
    let mut split_accumulator = AutoProductionAccumulator::default();
    let mut made = 0;
    for round in 0..50 {
        for frame in frames {
            let elapsed = frame + round;
            total += elapsed;
            if let Some(event) = auto_produce(&mut split, &mut split_accumulator, Fixed { raw: elapsed }) {
                made += event.amount;
            }
            assert!(0 <= split_accumulator.accumulated && split_accumulator.accumulated < THING);
        }
    }
    let mut whole = producing(Some(ThingType::Expensive), 2_500_000);
    let mut whole_accumulator = AutoProductionAccumulator::default();
    let event = auto_produce(&mut whole, &mut whole_accumulator, Fixed { raw: total });
    assert_eq!(event.unwrap().amount, made);
    assert_eq!(whole.things_produced, split.things_produced);
    assert_eq!(whole_accumulator, split_accumulator);
    // 1.25 a second
    assert_eq!(made as i128, (1_250_000 * total as i128) / THING);
}

#[test]
fn sixty_frames_of_a_second() {
    let mut game = producing(Some(ThingType::Expensive), 2_500_000);
    let mut accumulator = AutoProductionAccumulator::default();
    let mut made = 0;
    for _ in 0..60 {
        if let Some(event) = auto_produce(&mut game, &mut accumulator, Fixed { raw: 16_667 }) {
            made += event.amount;
        }
    }
    assert_eq!(made, 1);
    assert_eq!(accumulator.accumulated, 250_025_000_000);
}

#[test]
fn time_run_backwards_is_a_debt() {
    let mut game = producing(Some(ThingType::Good), 1_000_000);
    let mut accumulator = AutoProductionAccumulator::default();
    assert_eq!(auto_produce(&mut game, &mut accumulator, Fixed { raw: -2_500_000 }), None);
    assert_eq!(accumulator.accumulated, -2_500_000_000_000);
    assert_eq!(auto_produce(&mut game, &mut accumulator, Fixed { raw: 3_000_000 }), None);
    assert_eq!(accumulator.accumulated, 500_000_000_000);
    assert_eq!(game.things_produced, 0);
}

#[test]
fn the_count_of_things_stops_at_the_top() {
    let mut game = producing(Some(ThingType::Good), 1_000_000);
    game.things_produced = u64::MAX - 1;
    let mut accumulator = AutoProductionAccumulator::default();
    let event = auto_produce(&mut game, &mut accumulator, Fixed { raw: 5_000_000 });
    assert_eq!(event.unwrap().amount, 5);
    assert_eq!(game.things_produced, u64::MAX);
    assert_eq!(accumulator.accumulated, 0);
}

#[test]
fn more_than_can_be_counted_stays_in_the_accumulator() {
    let mut game = producing(None, i64::MAX);
    let mut accumulator = AutoProductionAccumulator::default();
    let event = auto_produce(&mut game, &mut accumulator, Fixed { raw: i64::MAX });
    assert_eq!(event.unwrap().amount, u64::MAX);
    let gathered = (i64::MAX as i128) * (i64::MAX as i128);
    assert_eq!(accumulator.accumulated, gathered - (u64::MAX as i128) * THING);
    let event = auto_produce(&mut game, &mut accumulator, Fixed { raw: i64::MAX });
    assert_eq!(event.unwrap().amount, u64::MAX);
    assert_eq!(accumulator.accumulated, 2 * gathered - 2 * (u64::MAX as i128) * THING);
    // and what is gathered stops at the top
    let event = auto_produce(&mut game, &mut accumulator, Fixed { raw: i64::MAX });
    assert_eq!(event.unwrap().amount, u64::MAX);
    assert_eq!(accumulator.accumulated, i128::MAX - (u64::MAX as i128) * THING);
}

#[test]
fn a_click_makes_things_rounded_up() {
    let expected = [
        (ThingType::Cheap, 1u64, 2u64),
        (ThingType::Good, 1, 1),
        (ThingType::Expensive, 1, 1),
        (ThingType::Bad, 1, 2),
        (ThingType::Expensive, 2, 1),
        (ThingType::Expensive, 3, 2),
        (ThingType::Bad, 3, 5),
        (ThingType::Bad, 7, 11),
        (ThingType::Good, 0, 0),
    ];
    for (thing, power, things) in expected {
        let mut game = GameState::default();
        game.thing_type = Some(thing);
        game.click_power = power;
        let event = handle_click(&mut game);
        assert_eq!(event, Some(ThingProducedEvent { amount: things, from_click: true }));
        assert_eq!(game.things_produced, things);
    }
}

#[test]
fn a_click_before_the_choice_makes_nothing() {
    let mut game = GameState::default();
    assert_eq!(handle_click(&mut game), None);
    assert_eq!(game, GameState::default());
}

#[test]
fn clicks_add_up() {
    let mut game = GameState::default();
    game.thing_type = Some(ThingType::Bad);
    game.click_power = 3;
    for _ in 0..4 {
        handle_click(&mut game);
    }
    assert_eq!(game.things_produced, 20);
    let mut expected = GameState::default();
    expected.thing_type = Some(ThingType::Bad);
    expected.click_power = 3;
    expected.things_produced = 20;
    assert_eq!(game, expected);
}

#[test]
fn a_click_of_the_greatest_power() {
    let mut game = GameState::default();
    game.thing_type = Some(ThingType::Cheap);
    game.click_power = u64::MAX;
    assert_eq!(handle_click(&mut game).unwrap().amount, u64::MAX);
    assert_eq!(game.things_produced, u64::MAX);
    let mut game = GameState::default();
    game.thing_type = Some(ThingType::Expensive);
    game.click_power = u64::MAX;
    assert_eq!(handle_click(&mut game).unwrap().amount, 9_223_372_036_854_775_808);
}
