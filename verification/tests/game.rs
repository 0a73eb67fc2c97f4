use hammurabi::city::City;
use hammurabi::engine::{
    feed_default, feed_step, plant_default, plant_step, play_default_turn, resolve_turn,
    PlantStep, TurnResult,
};
use hammurabi::rolls::{
    roll_birth_fraction, roll_for_plague, roll_harvest_yield, roll_land_price, roll_rats_fraction,
};
use hammurabi::verdict::{evaluate, Verdict};

/// Play one year on all-default decisions against fixed draws.
fn default_turn(
    mut city: City,
    year: i32,
    bushels_per_acre: i32,
    divisor: i32,
    rate: i32,
    plague: bool,
) -> TurnResult {
    city.year = year;
    play_default_turn(&city, bushels_per_acre, divisor, rate, plague)
}

/// The golden path: the fixed starting city, every decision the default,
/// and every draw pinned (price 20, three bushels per acre, rats divisor
/// four, base birth rate three, no plague). The run is fully determined:
/// two years of decline, then catastrophic starvation in year three.
#[test]
fn golden_default_run() {
    let city = City::starting();
    assert_eq!(city.people, 100);
    assert_eq!(city.land, 1000);
    assert_eq!(city.grain, 2800);

    // Year one: feed 2000, plant 800, harvest 2400, rats eat 600,
    // nobody starves, 37 come to the city.
    let city = match default_turn(city, 1, 3, 4, 3, false) {
        TurnResult::Continue(c) => c,
        _ => panic!("year one continues"),
    };
    assert_eq!(city.people, 137);
    assert_eq!(city.land, 1000);
    assert_eq!(city.grain, 1800);
    assert_eq!(city.starved, 0);
    assert_eq!(city.births, 37);
    assert_eq!(city.rats_ate, 600);
    assert_eq!(city.harvest_yield, 3);
    assert_eq!(city.total_starved, 0);
    assert_eq!(city.total_births, 37);
    assert_eq!(city.total_plague_deaths, 0);

    // Had the term ended here, seven acres a person is a heavy-handed
    // performance.
    assert_eq!(evaluate(&city), Verdict::HeavyHanded);

    // Year two: the store feeds only 90 of 137; 47 starve, 69 are born.
    let city = match default_turn(city, 2, 3, 4, 3, false) {
        TurnResult::Continue(c) => c,
        _ => panic!("year two continues"),
    };
    assert_eq!(city.people, 159);
    assert_eq!(city.grain, 0);
    assert_eq!(city.starved, 47);
    assert_eq!(city.births, 69);
    assert_eq!(city.rats_ate, 0);
    assert_eq!(city.total_starved, 47);
    assert_eq!(city.total_births, 106);

    // Year three: an empty store starves everyone — the catastrophic
    // terminal condition.
    match default_turn(city, 3, 3, 4, 3, false) {
        TurnResult::Starved(c) => {
            assert_eq!(c.year, 3);
            assert_eq!(c.people, 0);
            assert_eq!(c.starved, 159);
            assert_eq!(c.total_starved, 206);
            assert_eq!(c.total_births, 106);
            assert_eq!(c.grain, 0);
            assert_eq!(c.land, 1000);
        }
        _ => panic!("year three ends in catastrophic starvation"),
    }
}

/// A plague year inside a full turn: with ample grain and no starvation,
/// the plague halves the grown population.
#[test]
fn turn_with_plague() {
    let mut city = City::starting();
    city.year = 1;
    city.clear_events();
    let feed = feed_default(&city); // 2000
    let city = feed_step(&city, feed).unwrap();
    let plant = plant_default(&city); // 800
    let city = match plant_step(&city, plant) {
        PlantStep::Planted(c) => c,
        _ => panic!("the default planting is always accepted"),
    };
    match resolve_turn(&city, feed, plant, 3, 4, 3, true) {
        TurnResult::Continue(c) => {
            // As the golden run's year one, then the plague takes 68 of 137.
            assert_eq!(c.plague_victims, 68);
            assert_eq!(c.people, 69);
            assert_eq!(c.total_plague_deaths, 68);
        }
        _ => panic!("a plague year without starvation continues"),
    }
}

/// Every draw stays within its documented closed range.
#[test]
fn draws_stay_in_range() {
    let mut rng = rand::thread_rng();
    for _ in 0..200 {
        let p = roll_land_price(&mut rng);
        assert!((17..=26).contains(&p));
        let y = roll_harvest_yield(&mut rng);
        assert!((1..=5).contains(&y));
        let d = roll_rats_fraction(&mut rng);
        assert!((2..=6).contains(&d));
        let b = roll_birth_fraction(&mut rng);
        assert!((2..=5).contains(&b));
        let _ = roll_for_plague(&mut rng);
    }
}
