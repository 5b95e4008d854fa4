use thing_simulator::business::apply_reputation_decay;
use thing_simulator::business::calculate_revenue;
use thing_simulator::business::process_sales;
use thing_simulator::business::update_reputation;
use thing_simulator::business::SaleNotices;
use thing_simulator::business::UpgradeState;
use thing_simulator::business::UpgradeType;
use thing_simulator::economy::WorldState;
use thing_simulator::fixed::Fixed;
use thing_simulator::game_state::GameState;
use thing_simulator::game_state::ThingProducedEvent;
use thing_simulator::marketing::MarketingState;
use thing_simulator::thing_type::ThingType;

fn selling(thing: ThingType) -> GameState {
    let mut game = GameState::default();
    game.thing_type = Some(thing);
    game
}

fn all_upgrades() -> [UpgradeType; 6] {
    [
        UpgradeType::BetterTools,
        UpgradeType::HireWorker,
        UpgradeType::Automation,
        UpgradeType::SocialMedia,
        UpgradeType::Billboard,
        UpgradeType::InfluencerDeal,
    ]
}

#[test]
fn revenue_multiplies_its_factors_in_order() {
    let earned = calculate_revenue(
        7,
        Fixed { raw: 50_000_000 },
        Fixed { raw: 1_200_000 },
        3,
        Fixed { raw: 1_500_000 },
        Fixed { raw: 4_000_000 },
        Fixed { raw: 398_860 },
        Fixed { raw: 850_000 },
    );
    // 7 * 50 * 1.2 * 1.3 * 1.5 * 1.6 * 0.39886 * 0.85
    assert_eq!(earned, Fixed { raw: 444_266_222 });
}

#[test]
fn no_reputation_earns_nothing() {
    let earned = calculate_revenue(
        10,
        Fixed { raw: 5_000_000 },
        Fixed { raw: 1_000_000 },
        0,
        Fixed { raw: 1_000_000 },
        Fixed { raw: 0 },
        Fixed { raw: 1_000_000 },
        Fixed { raw: 1_000_000 },
    );
    assert_eq!(earned, Fixed { raw: 0 });
}

#[test]
fn each_marketing_level_adds_a_tenth() {
    for level in 0..5u32 {
        let earned = calculate_revenue(
            1,
            Fixed { raw: 10_000_000 },
            Fixed { raw: 1_000_000 },
            level,
            Fixed { raw: 1_000_000 },
            Fixed { raw: 2_500_000 },
            Fixed { raw: 1_000_000 },
            Fixed { raw: 1_000_000 },
        );
        assert_eq!(earned, Fixed { raw: 10_000_000 + 1_000_000 * level as i64 });
    }
}

#[test]
fn nothing_sells_before_a_thing_is_chosen() {
    let mut game = GameState::default();
    let before = game;
    let notices = process_sales(
        &mut game,
        &WorldState::default(),
        &MarketingState::default(),
        &ThingProducedEvent { amount: 1000, from_click: false },
    );
    assert_eq!(game, before);
    assert_eq!(notices, SaleNotices { money: None, reputation: None });
}

#[test]
fn a_sale_on_the_first_day() {
    let mut game = selling(ThingType::Good);
    let notices = process_sales(
        &mut game,
        &WorldState::default(),
        &MarketingState::default(),
        &ThingProducedEvent { amount: 1, from_click: true },
    );
    // 5.00 at a demand of 0.39886
    assert_eq!(game.money, Fixed { raw: 101_994_300 });
    assert_eq!(game.customers_served, 1);
    assert_eq!(game.reputation, Fixed { raw: 2_510_000 });
    assert_eq!(game.things_produced, 0);
    let money = notices.money.unwrap();
    assert_eq!(money.delta, Fixed { raw: 1_994_300 });
    assert_eq!(money.new_amount, Fixed { raw: 101_994_300 });
    assert_eq!(notices.reputation.unwrap().new_reputation, Fixed { raw: 2_510_000 });
}

#[test]
fn a_small_move_of_reputation_is_not_told() {
    // one Cheap Thing moves the reputation by 0.001, which is not more
    // than 0.001
    let mut game = selling(ThingType::Cheap);
    let notices = process_sales(
        &mut game,
        &WorldState::default(),
        &MarketingState::default(),
        &ThingProducedEvent { amount: 1, from_click: true },
    );
    assert_eq!(game.reputation, Fixed { raw: 2_501_000 });
    assert!(notices.money.is_some());
    assert_eq!(notices.reputation, None);
    // two move it by 0.002
    let notices = process_sales(
        &mut game,
        &WorldState::default(),
        &MarketingState::default(),
        &ThingProducedEvent { amount: 2, from_click: true },
    );
    assert_eq!(game.reputation, Fixed { raw: 2_503_000 });
    assert_eq!(notices.reputation.unwrap().new_reputation, Fixed { raw: 2_503_000 });
}

#[test]
fn a_sale_of_nothing_still_tells_of_the_money() {
    let mut game = selling(ThingType::Expensive);
    let notices = process_sales(
        &mut game,
        &WorldState::default(),
        &MarketingState::default(),
        &ThingProducedEvent { amount: 0, from_click: false },
    );
    let money = notices.money.unwrap();
    assert_eq!(money.delta, Fixed { raw: 0 });
    assert_eq!(money.new_amount, Fixed { raw: 100_000_000 });
    assert_eq!(notices.reputation, None);
    assert_eq!(game, selling(ThingType::Expensive));
}

#[test]
fn reputation_stops_at_five() {
    let mut game = selling(ThingType::Good);
    let world = WorldState::default();
    let marketing = MarketingState::default();
    let notices = process_sales(
        &mut game,
        &world,
        &marketing,
        &ThingProducedEvent { amount: 1_000, from_click: false },
    );
    assert_eq!(game.reputation, Fixed { raw: 5_000_000 });
    assert_eq!(notices.reputation.unwrap().new_reputation, Fixed { raw: 5_000_000 });
    let notices = process_sales(
        &mut game,
        &world,
        &marketing,
        &ThingProducedEvent { amount: 1_000, from_click: false },
    );
    assert_eq!(game.reputation, Fixed { raw: 5_000_000 });
    assert_eq!(notices.reputation, None);
    let notices = process_sales(
        &mut game,
        &world,
        &marketing,
        &ThingProducedEvent { amount: u64::MAX, from_click: false },
    );
    assert_eq!(game.reputation, Fixed { raw: 5_000_000 });
    assert_eq!(notices.reputation, None);
    assert_eq!(game.customers_served, u64::MAX);
}

#[test]
fn bad_things_ruin_the_reputation_and_stop_at_zero() {
    let mut game = selling(ThingType::Bad);
    let world = WorldState::default();
    let marketing = MarketingState::default();
    process_sales(&mut game, &world, &marketing, &ThingProducedEvent { amount: 50, from_click: true });
    assert_eq!(game.reputation, Fixed { raw: 1_500_000 });
    let notices = process_sales(
        &mut game,
        &world,
        &marketing,
        &ThingProducedEvent { amount: 500, from_click: true },
    );
    assert_eq!(game.reputation, Fixed { raw: 0 });
    assert_eq!(notices.reputation.unwrap().new_reputation, Fixed { raw: 0 });
    let before = game.money;
    let notices = process_sales(
        &mut game,
        &world,
        &marketing,
        &ThingProducedEvent { amount: 500, from_click: true },
    );
    // no reputation, no revenue
    assert_eq!(game.money, before);
    assert_eq!(notices.money.unwrap().delta, Fixed { raw: 0 });
    assert_eq!(notices.reputation, None);
    assert_eq!(game.reputation, Fixed { raw: 0 });
}

#[test]
fn reputation_stays_in_range_through_sales_and_decay() {
    let world = WorldState::default();
    let marketing = MarketingState::default();
    for thing in [ThingType::Cheap, ThingType::Good, ThingType::Expensive, ThingType::Bad] {
        let mut game = selling(thing);
        game.marketing_level = 4;
        for round in 0..400u64 {
            let amount = (round * 37) % 211;
            process_sales(&mut game, &world, &marketing, &ThingProducedEvent {
                amount,
                from_click: false,
            });
            assert!(0 <= game.reputation.raw && game.reputation.raw <= 5_000_000);
            update_reputation(&mut game, Fixed { raw: (round as i64 * 7_001) % 3_000_000 });
            assert!(0 <= game.reputation.raw && game.reputation.raw <= 5_000_000);
            apply_reputation_decay(&mut game, Fixed { raw: (round as i64 * 13_007) % 9_000_000 });
            assert!(0 <= game.reputation.raw && game.reputation.raw <= 5_000_000);
        }
    }
}

#[test]
fn marketing_raises_the_reputation_of_honest_things() {
    let mut game = selling(ThingType::Good);
    game.marketing_level = 3;
    update_reputation(&mut game, Fixed { raw: 2_500_000 });
    // 0.001 * 3 * 2.5
    assert_eq!(game.reputation, Fixed { raw: 2_507_500 });
    update_reputation(&mut game, Fixed { raw: 5_000_000_000 });
    assert_eq!(game.reputation, Fixed { raw: 5_000_000 });

    let mut game = selling(ThingType::Cheap);
    game.marketing_level = 1;
    update_reputation(&mut game, Fixed { raw: 16_000 });
    assert_eq!(game.reputation, Fixed { raw: 2_500_016 });
}

#[test]
fn marketing_does_nothing_for_bad_things_or_without_a_level() {
    let mut game = selling(ThingType::Bad);
    game.marketing_level = 3;
    update_reputation(&mut game, Fixed { raw: 2_500_000 });
    assert_eq!(game.reputation, Fixed { raw: 2_500_000 });

    let mut game = selling(ThingType::Good);
    update_reputation(&mut game, Fixed { raw: 2_500_000 });
    assert_eq!(game.reputation, Fixed { raw: 2_500_000 });

    let mut game = GameState::default();
    game.marketing_level = 3;
    update_reputation(&mut game, Fixed { raw: 2_500_000 });
    assert_eq!(game, {
        let mut same = GameState::default();
        same.marketing_level = 3;
        same
    });
}

#[test]
fn bad_things_decay() {
    let mut game = selling(ThingType::Bad);
    let notice = apply_reputation_decay(&mut game, Fixed { raw: 3_000_000 });
    // 0.005 * 3
    assert_eq!(game.reputation, Fixed { raw: 2_485_000 });
    assert_eq!(notice.unwrap().new_reputation, Fixed { raw: 2_485_000 });
    // a frame's decay is too small to tell of
    let notice = apply_reputation_decay(&mut game, Fixed { raw: 16_000 });
    assert_eq!(game.reputation, Fixed { raw: 2_484_920 });
    assert_eq!(notice, None);
    // exactly 0.01 is not more than 0.01
    let notice = apply_reputation_decay(&mut game, Fixed { raw: 2_000_000 });
    assert_eq!(game.reputation, Fixed { raw: 2_474_920 });
    assert_eq!(notice, None);
    let notice = apply_reputation_decay(&mut game, Fixed { raw: 1_000_000_000 });
    assert_eq!(game.reputation, Fixed { raw: 0 });
    assert_eq!(notice.unwrap().new_reputation, Fixed { raw: 0 });
    let notice = apply_reputation_decay(&mut game, Fixed { raw: 1_000_000 });
    assert_eq!(game.reputation, Fixed { raw: 0 });
    assert_eq!(notice, None);
}

#[test]
fn honest_things_do_not_decay() {
    for thing in [ThingType::Cheap, ThingType::Good, ThingType::Expensive] {
        let mut game = selling(thing);
        let notice = apply_reputation_decay(&mut game, Fixed { raw: 100_000_000 });
        assert_eq!(game, selling(thing));
        assert_eq!(notice, None);
    }
    let mut game = GameState::default();
    assert_eq!(apply_reputation_decay(&mut game, Fixed { raw: 100_000_000 }), None);
    assert_eq!(game, GameState::default());
    // time run backwards decays nothing
    let mut game = selling(ThingType::Bad);
    assert_eq!(apply_reputation_decay(&mut game, Fixed { raw: -100_000_000 }), None);
    assert_eq!(game, selling(ThingType::Bad));
}

#[test]
fn upgrades_have_names_and_costs() {
    let expected = [
        ("Better Tools", "+1 Thing per click", 50_000_000i64, true),
        ("Hire Worker", "+0.5 Things per second", 100_000_000, true),
        ("Automation", "+2 Things per second", 500_000_000, true),
        ("Social Media", "+1 Marketing Level", 75_000_000, false),
        ("Billboard", "+2 Marketing Level", 300_000_000, false),
        ("Influencer Deal", "+3 Marketing Level", 1_000_000_000, false),
    ];
    for (upgrade, (name, description, cost, production)) in all_upgrades().into_iter().zip(expected) {
        assert_eq!(upgrade.name(), name);
        assert_eq!(upgrade.description(), description);
        assert_eq!(upgrade.base_cost(), Fixed { raw: cost });
        assert_eq!(upgrade.is_production(), production);
        assert_eq!(upgrade.is_marketing(), !production);
        assert_eq!(UpgradeState::default().cost(upgrade), Fixed { raw: cost });
        assert_eq!(UpgradeState::default().get_count(upgrade), 0);
    }
}

#[test]
fn each_purchase_raises_the_price_by_fifteen_percent() {
    let mut state = UpgradeState::default();
    let expected = [50_000_000i64, 57_500_000, 66_125_000, 76_043_750, 87_450_312];
    for (count, cost) in expected.into_iter().enumerate() {
        state.better_tools = count as u32;
        assert_eq!(state.cost(UpgradeType::BetterTools), Fixed { raw: cost });
        assert_eq!(state.cost(UpgradeType::HireWorker), Fixed { raw: 100_000_000 });
    }
    state.social_media = 10;
    assert_eq!(state.cost(UpgradeType::SocialMedia), Fixed { raw: 303_416_825 });
}

#[test]
fn the_price_stops_at_the_top() {
    let mut state = UpgradeState::default();
    state.better_tools = 185;
    assert!(state.cost(UpgradeType::BetterTools).raw < i64::MAX);
    state.better_tools = 186;
    assert_eq!(state.cost(UpgradeType::BetterTools), Fixed { raw: i64::MAX });
    state.better_tools = 4_000_000_000;
    assert_eq!(state.cost(UpgradeType::BetterTools), Fixed { raw: i64::MAX });
}

#[test]
fn a_purchase_takes_the_money_and_gives_the_gain() {
    let mut upgrades = UpgradeState::default();
    let mut game = GameState::default();
    game.money = Fixed { raw: 2_000_000_000 };

    assert!(upgrades.purchase(UpgradeType::BetterTools, &mut game));
    assert_eq!(game.money, Fixed { raw: 1_950_000_000 });
    assert_eq!(game.click_power, 2);
    assert_eq!(upgrades.better_tools, 1);

    assert!(upgrades.purchase(UpgradeType::HireWorker, &mut game));
    assert_eq!(game.money, Fixed { raw: 1_850_000_000 });
    assert_eq!(game.things_per_second, Fixed { raw: 500_000 });
    assert_eq!(upgrades.workers, 1);

    assert!(upgrades.purchase(UpgradeType::Automation, &mut game));
    assert_eq!(game.money, Fixed { raw: 1_350_000_000 });
    assert_eq!(game.things_per_second, Fixed { raw: 2_500_000 });
    assert_eq!(upgrades.automation, 1);

    assert!(upgrades.purchase(UpgradeType::SocialMedia, &mut game));
    assert_eq!(game.money, Fixed { raw: 1_275_000_000 });
    assert_eq!(game.marketing_level, 1);
    assert_eq!(upgrades.social_media, 1);

    assert!(upgrades.purchase(UpgradeType::Billboard, &mut game));
    assert_eq!(game.money, Fixed { raw: 975_000_000 });
    assert_eq!(game.marketing_level, 3);
    assert_eq!(upgrades.billboards, 1);

    assert!(!upgrades.purchase(UpgradeType::InfluencerDeal, &mut game));
    game.money = Fixed { raw: 1_000_000_000 };
    assert!(upgrades.purchase(UpgradeType::InfluencerDeal, &mut game));
    assert_eq!(game.money, Fixed { raw: 0 });
    assert_eq!(game.marketing_level, 6);
    assert_eq!(upgrades.influencer_deals, 1);

    // the second of a kind costs more
    game.money = Fixed { raw: 57_499_999 };
    assert!(!upgrades.purchase(UpgradeType::BetterTools, &mut game));
    game.money = Fixed { raw: 57_500_000 };
    assert!(upgrades.purchase(UpgradeType::BetterTools, &mut game));
    assert_eq!(game.money, Fixed { raw: 0 });
    assert_eq!(game.click_power, 3);
    assert_eq!(upgrades.get_count(UpgradeType::BetterTools), 2);
    assert_eq!(game.reputation, Fixed { raw: 2_500_000 });
    assert_eq!(game.things_produced, 0);
}

#[test]
fn a_declined_purchase_changes_nothing() {
    for upgrade in all_upgrades() {
        let mut upgrades = UpgradeState::default();
        upgrades.workers = 2;
        let mut game = GameState::default();
        game.money = Fixed { raw: upgrades.cost(upgrade).raw - 1 };
        let before_upgrades = upgrades;
        let before = game;
        assert!(!upgrades.purchase(upgrade, &mut game));
        assert_eq!(upgrades, before_upgrades);
        assert_eq!(game, before);
    }
}

#[test]
fn the_starting_money_buys_little() {
    let mut upgrades = UpgradeState::default();
    let mut game = GameState::default();
    assert!(!upgrades.purchase(UpgradeType::Automation, &mut game));
    assert!(upgrades.purchase(UpgradeType::HireWorker, &mut game));
    assert_eq!(game.money, Fixed { raw: 0 });
    assert!(!upgrades.purchase(UpgradeType::BetterTools, &mut game));
}
