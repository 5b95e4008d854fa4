use thing_simulator::calendar::GameDate;

#[test]
fn leap_years_follow_the_gregorian_rule() {
    assert!(GameDate::new(2012, 1, 1).is_leap_year());
    assert!(GameDate::new(2000, 1, 1).is_leap_year());
    assert!(!GameDate::new(1900, 1, 1).is_leap_year());
    assert!(!GameDate::new(2013, 1, 1).is_leap_year());
    assert!(GameDate::new(2400, 6, 1).is_leap_year());
    assert!(!GameDate::new(2100, 6, 1).is_leap_year());
    assert!(GameDate::new(-4, 6, 1).is_leap_year());
    assert!(GameDate::new(0, 6, 1).is_leap_year());
    assert!(!GameDate::new(-100, 6, 1).is_leap_year());
}

#[test]
fn months_have_their_lengths() {
    let lengths: [u8; 12] = [31, 28, 31, 30, 31, 30, 31, 31, 30, 31, 30, 31];
    for month in 1..=12u8 {
        assert_eq!(GameDate::new(2013, month, 1).days_in_month(), lengths[(month - 1) as usize]);
    }
    assert_eq!(GameDate::new(2012, 2, 1).days_in_month(), 29);
    assert_eq!(GameDate::new(1900, 2, 1).days_in_month(), 28);
    assert_eq!(GameDate::new(2000, 2, 1).days_in_month(), 29);
}

#[test]
fn a_month_that_is_none_counts_thirty_days() {
    assert_eq!(GameDate::new(2012, 0, 1).days_in_month(), 30);
    assert_eq!(GameDate::new(2012, 13, 1).days_in_month(), 30);
}

#[test]
fn validity_checks_month_and_day() {
    assert!(GameDate::new(2012, 2, 29).is_valid());
    assert!(!GameDate::new(2013, 2, 29).is_valid());
    assert!(!GameDate::new(2013, 0, 1).is_valid());
    assert!(!GameDate::new(2013, 13, 1).is_valid());
    assert!(!GameDate::new(2013, 4, 31).is_valid());
    assert!(!GameDate::new(2013, 4, 0).is_valid());
    assert!(GameDate::new(-44, 3, 15).is_valid());
}

#[test]
fn advance_moves_to_the_next_day() {
    let mut date = GameDate::new(2012, 1, 1);
    date.advance();
    assert_eq!(date, GameDate::new(2012, 1, 2));
}

#[test]
fn advance_rolls_over_the_month() {
    let mut date = GameDate::new(2012, 1, 31);
    date.advance();
    assert_eq!(date, GameDate::new(2012, 2, 1));
    let mut april = GameDate::new(2012, 4, 30);
    april.advance();
    assert_eq!(april, GameDate::new(2012, 5, 1));
}

#[test]
fn advance_knows_the_leap_day() {
    let mut leap = GameDate::new(2012, 2, 28);
    leap.advance();
    assert_eq!(leap, GameDate::new(2012, 2, 29));
    leap.advance();
    assert_eq!(leap, GameDate::new(2012, 3, 1));
    let mut common = GameDate::new(2013, 2, 28);
    common.advance();
    assert_eq!(common, GameDate::new(2013, 3, 1));
}

#[test]
fn advance_rolls_over_the_year() {
    let mut date = GameDate::new(2012, 12, 31);
    date.advance();
    assert_eq!(date, GameDate::new(2013, 1, 1));
}

#[test]
fn a_year_of_days_returns_to_the_same_day() {
    // no 29 February on the way: 365 days
    let mut date = GameDate::new(2013, 5, 17);
    for _ in 0..365 {
        date.advance();
    }
    assert_eq!(date, GameDate::new(2014, 5, 17));

    // 29 February 2012 on the way: 366 days
    let mut early = GameDate::new(2012, 1, 15);
    for _ in 0..366 {
        early.advance();
    }
    assert_eq!(early, GameDate::new(2013, 1, 15));

    // 29 February 2016 on the way, in the year after: 366 days
    let mut late = GameDate::new(2015, 3, 1);
    for _ in 0..366 {
        late.advance();
    }
    assert_eq!(late, GameDate::new(2016, 3, 1));

    // after the leap day of its own year: 365 days
    let mut after = GameDate::new(2012, 3, 1);
    for _ in 0..365 {
        after.advance();
    }
    assert_eq!(after, GameDate::new(2013, 3, 1));
}

#[test]
fn every_day_of_four_years_returns_after_a_year() {
    let mut start = GameDate::new(2011, 1, 1);
    for _ in 0..(4 * 365 + 1) {
        if !(start.month == 2 && start.day == 29) {
            let leap_on_the_way = if start.month <= 2 {
                start.is_leap_year()
            } else {
                GameDate::new(start.year + 1, 1, 1).is_leap_year()
            };
            let steps = if leap_on_the_way { 366 } else { 365 };
            let mut date = start;
            for _ in 0..steps {
                date.advance();
            }
            assert_eq!(date, GameDate::new(start.year + 1, start.month, start.day));
        }
        start.advance();
    }
}

#[test]
fn the_leap_day_has_no_day_a_year_later() {
    let mut date = GameDate::new(2012, 2, 29);
    for _ in 0..365 {
        date.advance();
    }
    assert_eq!(date, GameDate::new(2013, 2, 28));
    date.advance();
    assert_eq!(date, GameDate::new(2013, 3, 1));
}

#[test]
fn day_of_year_counts_from_one() {
    assert_eq!(GameDate::new(2013, 1, 1).day_of_year(), 1);
    assert_eq!(GameDate::new(2013, 2, 28).day_of_year(), 59);
    assert_eq!(GameDate::new(2013, 3, 1).day_of_year(), 60);
    assert_eq!(GameDate::new(2012, 3, 1).day_of_year(), 61);
    assert_eq!(GameDate::new(2013, 12, 25).day_of_year(), 359);
    assert_eq!(GameDate::new(2012, 12, 25).day_of_year(), 360);
    assert_eq!(GameDate::new(2013, 12, 31).day_of_year(), 365);
    assert_eq!(GameDate::new(2012, 12, 31).day_of_year(), 366);
}

#[test]
fn christmas_is_counted_down_to() {
    assert_eq!(GameDate::new(2012, 1, 1).days_until_christmas(), 359);
    assert_eq!(GameDate::new(2013, 1, 1).days_until_christmas(), 358);
    assert_eq!(GameDate::new(2013, 11, 25).days_until_christmas(), 30);
    assert_eq!(GameDate::new(2013, 12, 24).days_until_christmas(), 1);
    assert_eq!(GameDate::new(2013, 12, 25).days_until_christmas(), 0);
    assert_eq!(GameDate::new(2012, 12, 25).days_until_christmas(), 0);
}

#[test]
fn after_christmas_the_count_goes_to_next_year() {
    // to 25 December 2014, through a common year
    assert_eq!(GameDate::new(2013, 12, 26).days_until_christmas(), 364);
    assert_eq!(GameDate::new(2013, 12, 31).days_until_christmas(), 359);
    // to 25 December 2016, through a leap year
    assert_eq!(GameDate::new(2015, 12, 26).days_until_christmas(), 365);
    assert_eq!(GameDate::new(2015, 12, 31).days_until_christmas(), 360);
    // out of a leap year
    assert_eq!(GameDate::new(2012, 12, 26).days_until_christmas(), 364);
}

#[test]
fn the_count_to_christmas_falls_by_one_a_day() {
    let mut date = GameDate::new(2015, 12, 26);
    let mut left = date.days_until_christmas();
    while left > 0 {
        date.advance();
        let now = date.days_until_christmas();
        assert_eq!(now, left - 1);
        left = now;
    }
    assert_eq!(date, GameDate::new(2016, 12, 25));
}

#[test]
fn known_days_fall_on_their_weekdays() {
    // 0 = Sunday
    assert_eq!(GameDate::new(2012, 1, 1).day_of_week(), 0);
    assert_eq!(GameDate::new(2000, 3, 1).day_of_week(), 3);
    assert_eq!(GameDate::new(2020, 2, 29).day_of_week(), 6);
    assert_eq!(GameDate::new(2024, 11, 28).day_of_week(), 4);
    assert_eq!(GameDate::new(2026, 2, 19).day_of_week(), 4);
    assert_eq!(GameDate::new(1970, 1, 1).day_of_week(), 4);
    assert_eq!(GameDate::new(1900, 1, 1).day_of_week(), 1);
    assert_eq!(GameDate::new(2100, 12, 31).day_of_week(), 5);
    assert_eq!(GameDate::new(1, 1, 1).day_of_week(), 1);
}

#[test]
fn weekdays_follow_one_another() {
    let mut date = GameDate::new(1999, 12, 25);
    let mut weekday = date.day_of_week();
    for _ in 0..3000 {
        date.advance();
        let next = date.day_of_week();
        assert_eq!(next, (weekday + 1) % 7);
        weekday = next;
    }
}

#[test]
fn weekdays_repeat_after_four_hundred_years() {
    assert_eq!(GameDate::new(-388, 1, 1).day_of_week(), GameDate::new(2012, 1, 1).day_of_week());
    assert_eq!(GameDate::new(2412, 1, 1).day_of_week(), 0);
    let mut date = GameDate::new(-1, 12, 30);
    let mut weekday = date.day_of_week();
    for _ in 0..800 {
        date.advance();
        let next = date.day_of_week();
        assert_eq!(next, (weekday + 1) % 7);
        weekday = next;
    }
}

#[test]
fn dates_are_written_month_day_year() {
    assert_eq!(GameDate::new(2012, 1, 1).format(), "Jan 1, 2012");
    assert_eq!(GameDate::new(2020, 3, 15).format(), "Mar 15, 2020");
    assert_eq!(GameDate::new(2026, 12, 31).format(), "Dec 31, 2026");
    assert_eq!(GameDate::new(987, 10, 9).format(), "Oct 9, 987");
    assert_eq!(GameDate::new(0, 2, 10).format(), "Feb 10, 0");
    assert_eq!(GameDate::new(-44, 3, 15).format(), "Mar 15, -44");
    assert_eq!(GameDate::new(2012, 13, 200).format(), "??? 200, 2012");
}

#[test]
fn every_month_has_its_three_letters() {
    let names = ["Jan", "Feb", "Mar", "Apr", "May", "Jun", "Jul", "Aug", "Sep", "Oct", "Nov", "Dec"];
    for month in 1..=12u8 {
        let text = GameDate::new(2012, month, 7).format();
        assert_eq!(text, format!("{} 7, 2012", names[(month - 1) as usize]));
    }
}

#[test]
fn the_seed_spells_the_date() {
    assert_eq!(GameDate::new(2012, 1, 1).seed(), 20120101);
    assert_eq!(GameDate::new(2020, 3, 15).seed(), 20200315);
    assert_eq!(GameDate::new(2026, 12, 31).seed(), 20261231);
}
