//! The turn engine: one year's state transition, phase by phase.
//!
//! Each phase is a pure function from a city (plus the player's decision or
//! the year's random draw, handed in as a plain value) to the next city.
//! The decision phases (trade, feed, plant) validate the decision and report
//! the specific deficient resource instead of applying it; the caller
//! re-solicits until one is accepted. The resolution phases (harvest, rats,
//! starvation, births, plague) are total on their stated inputs.

use vstd::prelude::*;
use vstd::arithmetic::div_mod::{lemma_div_nonincreasing, lemma_div_pos_is_pos};
use crate::city::{City, CityModel, wf_model};
use crate::decisions::BuySell;

verus! {

/// The outcome of one full turn. `Quit` is reserved for a caller whose
/// decision source can signal early termination; the engine itself never
/// produces it.
pub enum TurnResult {
    Continue(City),
    Starved(City),
    Quit(City),
}

/// The answer of the land-trade phase to one decision.
pub enum TradeStep {
    /// The decision was applied; here is the city after it.
    Traded(City),
    /// A purchase was rejected: its cost exceeds the grain in store.
    NotEnoughGrain,
    /// A sale was rejected: it exceeds the land the city owns.
    NotEnoughLand,
}

/// The answer of the planting phase to one requested acreage, with the
/// specific deficient resource; the checks happen in this order.
pub enum PlantStep {
    /// The acreage was accepted; here is the city after paying one bushel
    /// of seed per acre.
    Planted(City),
    /// More acres than the city owns.
    NotEnoughLand,
    /// More acres than the population can tend (ten per person).
    NotEnoughLabor,
    /// More acres than there are bushels of seed grain.
    NotEnoughGrain,
}

/// What the trade phase does to the model when the decision is acceptable.
pub open spec fn trade_model(m: CityModel, price: int, d: BuySell) -> CityModel {
    match d {
        BuySell::Buy(n) => CityModel {
            grain: m.grain - n * price,
            land: m.land + n,
            ..m
        },
        BuySell::Sell(n) => CityModel {
            grain: m.grain + n * price,
            land: m.land - n,
            ..m
        },
        BuySell::UseDefault => m,
    }
}

/// One land-trade decision against the current market price.
///
/// A purchase of `n` acres is rejected when `n * price` exceeds the grain
/// in store; a sale of `n` acres is rejected when `n` exceeds the land
/// owned; an empty decision ends the trade phase unchanged. Immediately
/// after an accepted trade, `grain` and `land` are still non-negative.
pub fn trade_step(c: &City, price: i32, d: &BuySell) -> (r: TradeStep)
    requires
        c.well_formed(),
        17 <= price <= 26,
        *d matches BuySell::Buy(n) ==> n >= 0,
        *d matches BuySell::Sell(n) ==> n >= 0,
        *d matches BuySell::Buy(n) ==> (n * price <= c@.grain ==> c@.land + n <= i32::MAX),
        *d matches BuySell::Sell(n) ==> (n <= c@.land ==> c@.grain + n * price <= i32::MAX),
    ensures
        *d matches BuySell::Buy(n) && n * price > c@.grain ==> r is NotEnoughGrain,
        *d matches BuySell::Buy(n) && n * price <= c@.grain ==> (r matches
            TradeStep::Traded(c2) && c2@ == trade_model(c@, price as int, *d)),
        *d matches BuySell::Sell(n) && n > c@.land ==> r is NotEnoughLand,
        *d matches BuySell::Sell(n) && n <= c@.land ==> (r matches TradeStep::Traded(c2)
            && c2@ == trade_model(c@, price as int, *d)),
        *d is UseDefault ==> (r matches TradeStep::Traded(c2) && c2@ == c@),
        r matches TradeStep::Traded(c2) ==> c2.well_formed(),
{
    match d {
        BuySell::Buy(n) => {
            proof {
                assert(0 <= (*n as int) * (price as int) <= (i32::MAX as int) * 26)
                    by (nonlinear_arith)
                    requires 0 <= *n <= i32::MAX, 17 <= price <= 26;
            }
            let cost: i64 = (*n as i64) * (price as i64);
            if cost > c.grain as i64 {
                TradeStep::NotEnoughGrain
            } else {
                let c2 = City {
                    grain: c.grain - cost as i32,
                    land: c.land + *n,
                    ..*c
                };
                TradeStep::Traded(c2)
            }
        }
        BuySell::Sell(n) => {
            if *n > c.land {
                TradeStep::NotEnoughLand
            } else {
                proof {
                    assert(0 <= (*n as int) * (price as int) <= (i32::MAX as int) * 26)
                        by (nonlinear_arith)
                        requires 0 <= *n <= i32::MAX, 17 <= price <= 26;
                }
                let proceeds: i64 = (*n as i64) * (price as i64);
                let c2 = City {
                    grain: (c.grain as i64 + proceeds) as i32,
                    land: c.land - *n,
                    ..*c
                };
                TradeStep::Traded(c2)
            }
        }
        BuySell::UseDefault => TradeStep::Traded(*c),
    }
}

/// The feeding default as a model value.
pub open spec fn spec_feed_default(m: CityModel) -> int {
    if 20 * m.people <= m.grain {
        20 * m.people
    } else {
        m.grain
    }
}

/// The suggested feeding default: twenty bushels per person, capped by the
/// grain in store.
pub fn feed_default(c: &City) -> (r: i32)
    requires
        c.well_formed(),
    ensures
        r == spec_feed_default(c@),
        0 <= r <= c@.grain,
{
    let want: i64 = 20 * (c.people as i64);
    if want <= c.grain as i64 {
        want as i32
    } else {
        c.grain
    }
}

/// One feeding decision: `feed` bushels are set aside for the people.
///
/// The amount is rejected (`None`) exactly when it exceeds the grain in
/// store, so the phase can never drive `grain` below zero.
pub fn feed_step(c: &City, feed: i32) -> (r: Option<City>)
    requires
        c.well_formed(),
        feed >= 0,
    ensures
        feed > c@.grain <==> r is None,
        r matches Some(c2) ==> c2@ == (CityModel { grain: c@.grain - feed, ..c@ })
            && c2.well_formed() && c2@.grain >= 0,
{
    if feed > c.grain {
        None
    } else {
        Some(City { grain: c.grain - feed, ..*c })
    }
}

/// The suggested planting default: ten acres per person, capped by the land
/// owned and by the grain left for seed.
pub fn plant_default(c: &City) -> (r: i32)
    requires
        c.well_formed(),
    ensures
        r == spec_plant_default(c@),
        0 <= r <= c@.land,
        r <= c@.grain,
{
    let labor: i64 = 10 * (c.people as i64);
    let mut best: i64 = labor;
    if (c.land as i64) < best {
        best = c.land as i64;
    }
    if (c.grain as i64) < best {
        best = c.grain as i64;
    }
    best as i32
}

/// The planting default as a model value.
pub open spec fn spec_plant_default(m: CityModel) -> int {
    let labor = 10 * m.people;
    let a = if m.land < labor { m.land } else { labor };
    if m.grain < a { m.grain } else { a }
}

/// One planting decision: `plant` acres are sown at one bushel of seed per
/// acre.
///
/// The acreage is tested, in this order, against the land owned, the labor
/// available (ten acres per person) and the seed grain in store, and the
/// first deficient resource is reported; an accepted acreage can never
/// drive `grain` below zero.
pub fn plant_step(c: &City, plant: i32) -> (r: PlantStep)
    requires
        c.well_formed(),
        plant >= 0,
    ensures
        plant > c@.land ==> r is NotEnoughLand,
        plant <= c@.land && plant > 10 * c@.people ==> r is NotEnoughLabor,
        plant <= c@.land && plant <= 10 * c@.people && plant > c@.grain ==> r is NotEnoughGrain,
        plant <= c@.land && plant <= 10 * c@.people && plant <= c@.grain ==> (r matches
            PlantStep::Planted(c2) && c2@ == (CityModel { grain: c@.grain - plant, ..c@ })
            && c2.well_formed() && c2@.grain >= 0),
{
    if plant > c.land {
        PlantStep::NotEnoughLand
    } else if plant as i64 > 10 * (c.people as i64) {
        PlantStep::NotEnoughLabor
    } else if plant > c.grain {
        PlantStep::NotEnoughGrain
    } else {
        PlantStep::Planted(City { grain: c.grain - plant, ..*c })
    }
}

/// What the harvest does to the model: each planted acre returns the
/// year's bushels-per-acre draw.
pub open spec fn harvest_model(m: CityModel, plant: int, bushels_per_acre: int) -> CityModel {
    CityModel {
        harvest_yield: bushels_per_acre,
        grain: m.grain + bushels_per_acre * plant,
        ..m
    }
}

/// The harvest: `plant` acres were sown, and the draw says how many
/// bushels each acre returned.
pub fn resolve_harvest(c: &City, plant: i32, bushels_per_acre: i32) -> (r: City)
    requires
        c.well_formed(),
        plant >= 0,
        1 <= bushels_per_acre <= 5,
        c@.grain + bushels_per_acre * plant <= i32::MAX,
    ensures
        r@ == harvest_model(c@, plant as int, bushels_per_acre as int),
        r.well_formed(),
{
    proof {
        assert(0 <= (bushels_per_acre as int) * (plant as int) <= 5 * (i32::MAX as int))
            by (nonlinear_arith)
            requires 0 <= plant <= i32::MAX, 1 <= bushels_per_acre <= 5;
    }
    let gain: i64 = (bushels_per_acre as i64) * (plant as i64);
    City {
        harvest_yield: bushels_per_acre,
        grain: (c.grain as i64 + gain) as i32,
        ..*c
    }
}

/// What the rats do to the model: they eat the store divided by the
/// year's draw, rounded down.
pub open spec fn rats_model(m: CityModel, divisor: int) -> CityModel {
    CityModel {
        rats_ate: m.grain / divisor,
        grain: m.grain - m.grain / divisor,
        ..m
    }
}

/// The rats: a divisor between two and six is drawn, and the rats eat
/// `grain / divisor` bushels.
pub fn resolve_rats(c: &City, divisor: i32) -> (r: City)
    requires
        c.well_formed(),
        2 <= divisor <= 6,
    ensures
        r@ == rats_model(c@, divisor as int),
        r.well_formed(),
{
    proof {
        lemma_div_pos_is_pos(c@.grain, divisor as int);
        lemma_div_nonincreasing(c@.grain, divisor as int);
    }
    let ate = c.grain / divisor;
    City { rats_ate: ate, grain: c.grain - ate, ..*c }
}

/// The year's starvation count: the people need twenty bushels each, so
/// `feed / 20` of them are fed and the rest starve, clamped above by the
/// whole population. With a non-negative `feed` the clamp never engages,
/// and when `feed` exceeds twenty bushels per person the count is
/// negative: the engine keeps that value, a deliberately documented
/// oddity of the game's rules, rather than silently flooring it at zero.
pub open spec fn starved_of(people: int, feed: int) -> int {
    let raw = people - feed / 20;
    if raw <= people {
        raw
    } else {
        people
    }
}

/// What starvation does to the model.
pub open spec fn starvation_model(m: CityModel, feed: int) -> CityModel {
    let s = starved_of(m.people, feed);
    CityModel {
        starved: s,
        people: m.people - s,
        total_starved: m.total_starved + s,
        ..m
    }
}

/// The starvation step. The count never exceeds the pre-starvation
/// population, and the surviving population is exactly the number of
/// people the feed could support.
pub fn resolve_starvation(c: &City, feed: i32) -> (r: City)
    requires
        c.well_formed(),
        feed >= 0,
        i32::MIN <= c@.total_starved + starved_of(c@.people, feed as int) <= i32::MAX,
    ensures
        r@ == starvation_model(c@, feed as int),
        r@.starved <= c@.people,
        r@.people >= 0,
        r.well_formed(),
{
    proof {
        lemma_div_pos_is_pos(feed as int, 20);
    }
    let fed = feed / 20;
    let raw = c.people - fed;
    let s = if raw <= c.people { raw } else { c.people };
    City {
        starved: s,
        people: c.people - s,
        total_starved: ((c.total_starved as i64) + (s as i64)) as i32,
        ..*c
    }
}

/// The year's births under the blended rate. The base rate `rate` is
/// scaled by the starvation factor `1 - starved/people` and the
/// population factor `1 - people/1000` (both over the surviving
/// population, as exact rationals), and the births are the surviving
/// population divided by the blended rate, truncated toward zero.
///
/// Guarded edge case: when the blended rate is zero or negative — the
/// surviving population is zero, it is one thousand or more, or the
/// starvation count is at least the surviving population — the quotient
/// is undefined or not positive, and the year's births are zero.
pub open spec fn births_of(rate: int, people: int, starved: int) -> int {
    if people <= 0 || people >= 1000 || starved >= people {
        0
    } else {
        1000 * people * people / (rate * (people - starved) * (1000 - people))
    }
}

/// What the births do to the model, reading the surviving population and
/// this year's starvation count.
pub open spec fn births_model(m: CityModel, rate: int) -> CityModel {
    let b = births_of(rate, m.people, m.starved);
    CityModel {
        births: b,
        people: m.people + b,
        total_births: m.total_births + b,
        ..m
    }
}

/// The births step. The count is never negative, so `people` and
/// `total_births` cannot decrease here.
pub fn resolve_births(c: &City, rate: i32) -> (r: City)
    requires
        c.well_formed(),
        2 <= rate <= 5,
        c@.total_births + births_of(rate as int, c@.people, c@.starved) <= i32::MAX,
    ensures
        r@ == births_model(c@, rate as int),
        r@.births >= 0,
        r.well_formed(),
{
    let b: i32;
    if c.people == 0 || c.people >= 1000 || c.starved >= c.people {
        b = 0;
    } else {
        let p = c.people as i64;
        let s = c.starved as i64;
        proof {
            assert(0 < 1000 * (p as int) * (p as int) <= 998001000) by (nonlinear_arith)
                requires 0 < p < 1000;
            assert(1 <= (rate as int) * ((p - s) as int) <= 5 * (1000 - i32::MIN as int)
                && 1 <= (rate as int) * ((p - s) as int) * ((1000 - p) as int)
                <= 5 * (1000 - i32::MIN as int) * 1000) by (nonlinear_arith)
                requires
                    0 < p < 1000,
                    i32::MIN <= s < p,
                    2 <= rate <= 5;
        }
        let num: i64 = 1000 * p * p;
        let den: i64 = (rate as i64) * (p - s) * (1000 - p);
        proof {
            lemma_div_pos_is_pos(num as int, den as int);
            lemma_div_nonincreasing(num as int, den as int);
        }
        b = (num / den) as i32;
    }
    City {
        births: b,
        people: c.people + b,
        total_births: ((c.total_births as i64) + (b as i64)) as i32,
        ..*c
    }
}

/// What a plague year does to the model: half the people, rounded down,
/// die. A year without plague leaves the model unchanged.
pub open spec fn plague_model(m: CityModel, plague: bool) -> CityModel {
    if plague {
        CityModel {
            plague_victims: m.people / 2,
            people: m.people - m.people / 2,
            total_plague_deaths: m.total_plague_deaths + m.people / 2,
            ..m
        }
    } else {
        m
    }
}

/// The plague step, applied when the fifteen-percent trial came up true.
pub fn resolve_plague(c: &City, plague: bool) -> (r: City)
    requires
        c.well_formed(),
        plague ==> c@.total_plague_deaths + c@.people / 2 <= i32::MAX,
    ensures
        r@ == plague_model(c@, plague),
        r.well_formed(),
{
    if plague {
        proof {
            lemma_div_pos_is_pos(c@.people, 2);
            lemma_div_nonincreasing(c@.people, 2);
        }
        let victims = c.people / 2;
        City {
            plague_victims: victims,
            people: c.people - victims,
            total_plague_deaths: ((c.total_plague_deaths as i64) + (victims as i64)) as i32,
            ..*c
        }
    } else {
        *c
    }
}

/// The catastrophic-starvation test over the post-turn population: the
/// year's starvation deaths strictly exceed forty-five percent of the
/// people still alive. An exact forty-five percent is survived: with one
/// hundred survivors, forty-six starved end the game and forty-five do
/// not.
pub open spec fn catastrophic(starved: int, people: int) -> bool {
    20 * starved > 9 * people
}

/// The terminal check at the end of a turn.
pub fn is_catastrophic(c: &City) -> (r: bool)
    ensures
        r == catastrophic(c@.starved, c@.people),
{
    20 * (c.starved as i64) > 9 * (c.people as i64)
}

/// The whole turn after the decisions are applied: harvest, rats,
/// starvation, births and plague, in that order, as one model transition.
pub open spec fn turn_model(
    m: CityModel,
    feed: int,
    plant: int,
    bushels_per_acre: int,
    divisor: int,
    rate: int,
    plague: bool,
) -> CityModel {
    plague_model(
        births_model(
            starvation_model(rats_model(harvest_model(m, plant, bushels_per_acre), divisor), feed),
            rate,
        ),
        plague,
    )
}

/// The machine-limit side conditions for one turn: the grain store after
/// the harvest and each running total must stay within `i32`.
pub open spec fn turn_fits(
    m: CityModel,
    feed: int,
    plant: int,
    bushels_per_acre: int,
    divisor: int,
    rate: int,
    plague: bool,
) -> bool {
    let m1 = harvest_model(m, plant, bushels_per_acre);
    let m2 = rats_model(m1, divisor);
    let m3 = starvation_model(m2, feed);
    let m4 = births_model(m3, rate);
    &&& m1.grain <= i32::MAX
    &&& i32::MIN <= m3.total_starved <= i32::MAX
    &&& m4.total_births <= i32::MAX
    &&& (plague ==> m4.total_plague_deaths + m4.people / 2 <= i32::MAX)
}

/// One year's full resolution, once the trade is settled and the feeding
/// and planting decisions are accepted (the city comes in with their grain
/// already deducted). The result is the turn model exactly, wrapped as
/// `Starved` precisely when the catastrophic-starvation test holds of the
/// post-turn state, and as `Continue` otherwise; the engine never answers
/// `Quit`.
pub fn resolve_turn(
    c: &City,
    feed: i32,
    plant: i32,
    bushels_per_acre: i32,
    divisor: i32,
    rate: i32,
    plague: bool,
) -> (r: TurnResult)
    requires
        c.well_formed(),
        feed >= 0,
        plant >= 0,
        1 <= bushels_per_acre <= 5,
        2 <= divisor <= 6,
        2 <= rate <= 5,
        turn_fits(c@, feed as int, plant as int, bushels_per_acre as int, divisor as int,
            rate as int, plague),
    ensures
        ({
            let m = turn_model(c@, feed as int, plant as int, bushels_per_acre as int,
                divisor as int, rate as int, plague);
            &&& r matches TurnResult::Starved(c2) ==> (c2@ == m && catastrophic(m.starved, m.people)
                && c2.well_formed())
            &&& r matches TurnResult::Continue(c2) ==> (c2@ == m && !catastrophic(
                m.starved,
                m.people,
            ) && c2.well_formed())
            &&& !(r is Quit)
        }),
{
    let c1 = resolve_harvest(c, plant, bushels_per_acre);
    let c2 = resolve_rats(&c1, divisor);
    let c3 = resolve_starvation(&c2, feed);
    let c4 = resolve_births(&c3, rate);
    let c5 = resolve_plague(&c4, plague);
    if is_catastrophic(&c5) {
        TurnResult::Starved(c5)
    } else {
        TurnResult::Continue(c5)
    }
}

/// The model after the per-turn event counters are cleared.
pub open spec fn cleared_model(m: CityModel) -> CityModel {
    CityModel { starved: 0, plague_victims: 0, births: 0, harvest_yield: 0, ..m }
}

/// One whole year played on the suggested defaults, as a model
/// transition: counters cleared, no trade, the default feed and the
/// default planting, then the turn's resolution.
pub open spec fn default_turn_model(
    m: CityModel,
    bushels_per_acre: int,
    divisor: int,
    rate: int,
    plague: bool,
) -> CityModel {
    let m0 = cleared_model(m);
    let feed = spec_feed_default(m0);
    let m_fed = CityModel { grain: m0.grain - feed, ..m0 };
    let plant = spec_plant_default(m_fed);
    let m_planted = CityModel { grain: m_fed.grain - plant, ..m_fed };
    turn_model(m_planted, feed, plant, bushels_per_acre, divisor, rate, plague)
}

/// The year's births never exceed the blended-rate numerator at its
/// largest, one thousand times nine hundred ninety-nine squared.
proof fn lemma_births_bounded(rate: int, people: int, starved: int)
    requires
        2 <= rate <= 5,
    ensures
        0 <= births_of(rate, people, starved) <= 998001000,
{
    if !(people <= 0 || people >= 1000 || starved >= people) {
        assert(0 < 1000 * people * people <= 998001000) by (nonlinear_arith)
            requires 0 < people < 1000;
        assert(rate * (people - starved) * (1000 - people) >= 1) by (nonlinear_arith)
            requires 0 < people < 1000, starved < people, 2 <= rate;
        lemma_div_pos_is_pos(1000 * people * people, rate * (people - starved) * (1000 - people));
        lemma_div_nonincreasing(
            1000 * people * people,
            rate * (people - starved) * (1000 - people),
        );
    }
}

/// One whole year on the suggested defaults: the counters are cleared, no
/// land is traded, the people get the default feed and the fields the
/// default planting (both always accepted), and the year resolves against
/// the draws handed in. The bounds on the incoming counters are what the
/// `i32` ledgers force; any state a game can actually reach sits far
/// below them.
pub fn play_default_turn(
    c: &City,
    bushels_per_acre: i32,
    divisor: i32,
    rate: i32,
    plague: bool,
) -> (r: TurnResult)
    requires
        c.well_formed(),
        1 <= bushels_per_acre <= 5,
        2 <= divisor <= 6,
        2 <= rate <= 5,
        c@.grain <= 300_000_000,
        c@.people <= 1_000_000_000,
        -1_000_000_000 <= c@.total_starved <= 1_000_000_000,
        c@.total_births <= 1_000_000_000,
        c@.total_plague_deaths <= 1_000_000_000,
    ensures
        ({
            let m = default_turn_model(c@, bushels_per_acre as int, divisor as int, rate as int,
                plague);
            &&& r matches TurnResult::Continue(c2) ==> (c2@ == m && !catastrophic(
                m.starved,
                m.people,
            ) && c2.well_formed())
            &&& r matches TurnResult::Starved(c2) ==> (c2@ == m && catastrophic(
                m.starved,
                m.people,
            ) && c2.well_formed())
            &&& !(r is Quit)
        }),
{
    let mut city = *c;
    city.clear_events();
    let feed = feed_default(&city);
    let city = match feed_step(&city, feed) {
        Some(c2) => c2,
        None => {
            assert(false);
            city
        }
    };
    let plant = plant_default(&city);
    let city = match plant_step(&city, plant) {
        PlantStep::Planted(c2) => c2,
        _ => {
            assert(false);
            city
        }
    };
    proof {
        let m = city@;
        let m1 = harvest_model(m, plant as int, bushels_per_acre as int);
        assert(0 <= (bushels_per_acre as int) * (plant as int) <= 5 * (plant as int))
            by (nonlinear_arith)
            requires 0 <= plant, 1 <= bushels_per_acre <= 5;
        let m2 = rats_model(m1, divisor as int);
        lemma_div_pos_is_pos(m1.grain, divisor as int);
        lemma_div_nonincreasing(m1.grain, divisor as int);
        let m3 = starvation_model(m2, feed as int);
        lemma_div_pos_is_pos(feed as int, 20);
        lemma_div_nonincreasing(feed as int, 20);
        let m4 = births_model(m3, rate as int);
        lemma_births_bounded(rate as int, m3.people, m3.starved);
        lemma_div_pos_is_pos(m4.people, 2);
        lemma_div_nonincreasing(m4.people, 2);
    }
    resolve_turn(&city, feed, plant, bushels_per_acre, divisor, rate, plague)
}

/// The year's births are never negative, whatever the state.
pub proof fn lemma_births_nonneg(rate: int, people: int, starved: int)
    requires
        2 <= rate <= 5,
    ensures
        births_of(rate, people, starved) >= 0,
{
    if !(people <= 0 || people >= 1000 || starved >= people) {
        assert(1000 * people * people > 0 && rate * (people - starved) * (1000 - people) > 0)
            by (nonlinear_arith)
            requires 0 < people < 1000, starved < people, 2 <= rate;
        lemma_div_pos_is_pos(1000 * people * people, rate * (people - starved) * (1000 - people));
    }
}

/// Law: the starvation count never exceeds the pre-starvation population.
pub proof fn lemma_starved_le_people(people: int, feed: int)
    ensures
        starved_of(people, feed) <= people,
{
}

/// Law: the running totals `total_starved`, `total_plague_deaths` and
/// `total_births` never decrease across a turn, provided the year's
/// starvation count is not negative. (The count goes negative exactly when
/// the feed decision covers more than the whole population — the
/// documented oddity of the starvation rule — and then `total_starved`
/// does decrease; the other two totals never do.)
pub proof fn lemma_totals_monotone(
    m: CityModel,
    feed: int,
    plant: int,
    bushels_per_acre: int,
    divisor: int,
    rate: int,
    plague: bool,
)
    requires
        wf_model(m),
        feed >= 0,
        plant >= 0,
        1 <= bushels_per_acre <= 5,
        2 <= divisor <= 6,
        2 <= rate <= 5,
        starved_of(m.people, feed) >= 0,
    ensures
        ({
            let m2 = turn_model(m, feed, plant, bushels_per_acre, divisor, rate, plague);
            &&& m2.total_starved >= m.total_starved
            &&& m2.total_births >= m.total_births
            &&& m2.total_plague_deaths >= m.total_plague_deaths
        }),
{
    let m1 = harvest_model(m, plant, bushels_per_acre);
    let mr = rats_model(m1, divisor);
    let ms = starvation_model(mr, feed);
    let mb = births_model(ms, rate);
    lemma_div_pos_is_pos(feed, 20);
    lemma_births_nonneg(rate, ms.people, ms.starved);
    lemma_div_pos_is_pos(mb.people, 2);
}

} // verus!
