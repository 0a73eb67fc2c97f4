use hammurabi::city::City;
use hammurabi::decisions::BuySell;
use hammurabi::engine::{
    feed_step, is_catastrophic, plant_step, resolve_births, resolve_harvest, resolve_plague,
    resolve_rats, resolve_starvation, trade_step, PlantStep, TradeStep,
};
use hammurabi::engine::{feed_default, plant_default};

fn city(people: i32, land: i32, grain: i32) -> City {
    let mut c = City::default();
    c.people = people;
    c.land = land;
    c.grain = grain;
    c
}

#[test]
fn buy_rejected_when_cost_exceeds_grain() {
    let c = city(100, 1000, 100);
    // 6 acres at any price in 17..=26 cost more than 100 bushels.
    let r = trade_step(&c, 20, &BuySell::Buy(6));
    assert!(matches!(r, TradeStep::NotEnoughGrain));
}

#[test]
fn buy_applied_exactly() {
    let c = city(100, 1000, 2800);
    match trade_step(&c, 20, &BuySell::Buy(10)) {
        TradeStep::Traded(c2) => {
            assert_eq!(c2.grain, 2600);
            assert_eq!(c2.land, 1010);
            assert!(c2.grain >= 0 && c2.land >= 0);
        }
        _ => panic!("an affordable purchase must be applied"),
    }
}

#[test]
fn sell_rejected_when_exceeding_land() {
    let c = city(100, 50, 0);
    let r = trade_step(&c, 17, &BuySell::Sell(51));
    assert!(matches!(r, TradeStep::NotEnoughLand));
}

#[test]
fn sell_applied_exactly() {
    let c = city(100, 1000, 100);
    match trade_step(&c, 26, &BuySell::Sell(1000)) {
        TradeStep::Traded(c2) => {
            assert_eq!(c2.grain, 26100);
            assert_eq!(c2.land, 0);
            assert!(c2.grain >= 0 && c2.land >= 0);
        }
        _ => panic!("a covered sale must be applied"),
    }
}

#[test]
fn no_trade_changes_nothing() {
    let c = city(100, 1000, 2800);
    match trade_step(&c, 22, &BuySell::UseDefault) {
        TradeStep::Traded(c2) => assert_eq!(c2, c),
        _ => panic!("the default decision ends the trade phase"),
    }
}

#[test]
fn feed_rejected_over_grain_and_never_negative() {
    let c = city(100, 1000, 500);
    assert!(feed_step(&c, 501).is_none());
    let c2 = feed_step(&c, 500).unwrap();
    assert_eq!(c2.grain, 0);
    let c3 = feed_step(&c, 123).unwrap();
    assert_eq!(c3.grain, 377);
}

#[test]
fn feed_default_is_twenty_per_person_capped_by_store() {
    assert_eq!(feed_default(&city(100, 0, 2800)), 2000);
    assert_eq!(feed_default(&city(100, 0, 1800)), 1800);
    assert_eq!(feed_default(&city(0, 0, 50)), 0);
}

#[test]
fn plant_checks_land_then_labor_then_grain() {
    let c = city(10, 120, 90);
    // 130 acres: more than the 120 owned.
    assert!(matches!(plant_step(&c, 130), PlantStep::NotEnoughLand));
    // 110 acres fit the land but exceed 10 people * 10.
    assert!(matches!(plant_step(&c, 110), PlantStep::NotEnoughLabor));
    // 95 acres fit land and labor but exceed the 90 bushels of seed.
    assert!(matches!(plant_step(&c, 95), PlantStep::NotEnoughGrain));
    match plant_step(&c, 90) {
        PlantStep::Planted(c2) => assert_eq!(c2.grain, 0),
        _ => panic!("an affordable planting must be applied"),
    }
}

#[test]
fn plant_default_is_min_of_labor_land_grain() {
    assert_eq!(plant_default(&city(100, 1000, 800)), 800);
    assert_eq!(plant_default(&city(100, 600, 2800)), 600);
    assert_eq!(plant_default(&city(10, 600, 2800)), 100);
}

#[test]
fn harvest_adds_yield_per_acre() {
    let c = city(100, 1000, 0);
    let c2 = resolve_harvest(&c, 800, 3);
    assert_eq!(c2.grain, 2400);
    assert_eq!(c2.harvest_yield, 3);
}

#[test]
fn rats_eat_a_fraction() {
    let c = city(100, 1000, 2400);
    let c2 = resolve_rats(&c, 4);
    assert_eq!(c2.rats_ate, 600);
    assert_eq!(c2.grain, 1800);
    let c3 = resolve_rats(&city(100, 1000, 7), 6);
    assert_eq!(c3.rats_ate, 1);
    assert_eq!(c3.grain, 6);
}

#[test]
fn starvation_counts_the_unfed() {
    let c = city(100, 1000, 0);
    let c2 = resolve_starvation(&c, 2000);
    assert_eq!(c2.starved, 0);
    assert_eq!(c2.people, 100);
    let c3 = resolve_starvation(&c, 900);
    // 900 bushels feed 45 people; 55 starve.
    assert_eq!(c3.starved, 55);
    assert_eq!(c3.people, 45);
    assert_eq!(c3.total_starved, 55);
    assert!(c3.starved <= c.people);
}

#[test]
fn overfeeding_drives_the_count_negative() {
    // 2100 bushels feed 105 people but only 100 exist: the count is -5.
    let c = city(100, 1000, 0);
    let c2 = resolve_starvation(&c, 2100);
    assert_eq!(c2.starved, -5);
    assert_eq!(c2.people, 105);
    assert_eq!(c2.total_starved, -5);
}

#[test]
fn births_follow_the_blended_rate() {
    let mut c = city(100, 1000, 0);
    c.starved = 0;
    let c2 = resolve_births(&c, 3);
    // 1000 * 100 * 100 / (3 * 100 * 900) = 37.
    assert_eq!(c2.births, 37);
    assert_eq!(c2.people, 137);
    assert_eq!(c2.total_births, 37);
}

#[test]
fn degenerate_birth_rates_give_no_births() {
    // No survivors.
    let c0 = city(0, 0, 0);
    assert_eq!(resolve_births(&c0, 3).births, 0);
    // A thousand people or more: the population factor is not positive.
    let c1 = city(1000, 0, 0);
    assert_eq!(resolve_births(&c1, 2).births, 0);
    // Starvation at least matching the survivors: the starvation factor
    // is not positive.
    let mut c2 = city(50, 0, 0);
    c2.starved = 50;
    assert_eq!(resolve_births(&c2, 4).births, 0);
}

#[test]
fn plague_halves_the_people() {
    let c = city(101, 1000, 0);
    let c2 = resolve_plague(&c, true);
    assert_eq!(c2.plague_victims, 50);
    assert_eq!(c2.people, 51);
    assert_eq!(c2.total_plague_deaths, 50);
    let c3 = resolve_plague(&c, false);
    assert_eq!(c3, c);
}

#[test]
fn catastrophe_boundary_is_forty_five_percent() {
    // The rule is strict: the deaths must exceed forty-five percent of
    // the survivors, so an exact forty-five percent is survived.
    let mut c = city(100, 0, 0);
    c.starved = 46;
    assert!(is_catastrophic(&c));
    c.starved = 45;
    assert!(!is_catastrophic(&c));
    c.starved = 44;
    assert!(!is_catastrophic(&c));
}
