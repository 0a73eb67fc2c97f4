//! The city: the entire mutable simulation state, a plain aggregate of
//! integer counters, together with its mathematical model.

use vstd::prelude::*;

verus! {

/// The whole simulation state for one game.
///
/// `people`, `land` and `grain` are the durable resources and stay
/// non-negative after every successfully applied phase. `starved`,
/// `plague_victims`, `births`, `rats_ate` and `harvest_yield` are per-turn
/// event counters: they report what happened this year and are cleared (or,
/// for `rats_ate`, overwritten) by the next turn. The `total_*` fields are
/// running sums across the whole game, read by the evaluator at the end.
#[derive(Clone, Copy, Debug, PartialEq, Eq, Structural)]
pub struct City {
    pub year: i32,
    pub people: i32,
    pub land: i32,
    pub grain: i32,
    pub starved: i32,
    pub plague_victims: i32,
    pub births: i32,
    pub rats_ate: i32,
    pub harvest_yield: i32,
    pub total_starved: i32,
    pub total_plague_deaths: i32,
    pub total_births: i32,
}

/// The mathematical model of a city: every counter as an unbounded integer.
/// Contracts of the turn engine are stated over this model.
pub struct CityModel {
    pub year: int,
    pub people: int,
    pub land: int,
    pub grain: int,
    pub starved: int,
    pub plague_victims: int,
    pub births: int,
    pub rats_ate: int,
    pub harvest_yield: int,
    pub total_starved: int,
    pub total_plague_deaths: int,
    pub total_births: int,
}

impl View for City {
    type V = CityModel;

    open spec fn view(&self) -> CityModel {
        CityModel {
            year: self.year as int,
            people: self.people as int,
            land: self.land as int,
            grain: self.grain as int,
            starved: self.starved as int,
            plague_victims: self.plague_victims as int,
            births: self.births as int,
            rats_ate: self.rats_ate as int,
            harvest_yield: self.harvest_yield as int,
            total_starved: self.total_starved as int,
            total_plague_deaths: self.total_plague_deaths as int,
            total_births: self.total_births as int,
        }
    }
}

/// The durable resources can never be negative.
pub open spec fn wf_model(m: CityModel) -> bool {
    &&& m.people >= 0
    &&& m.land >= 0
    &&& m.grain >= 0
}

impl City {
    /// The state invariant: `people`, `land` and `grain` are non-negative.
    pub open spec fn well_formed(self) -> bool {
        wf_model(self@)
    }

    /// Reset the per-turn event counters at the start of a turn's
    /// processing. `rats_ate` is left alone: it is overwritten later in the
    /// same turn, always before it is read again.
    pub fn clear_events(&mut self)
        ensures
            final(self)@ == (CityModel {
                starved: 0,
                plague_victims: 0,
                births: 0,
                harvest_yield: 0,
                ..old(self)@
            }),
    {
        self.starved = 0;
        self.plague_victims = 0;
        self.births = 0;
        self.harvest_yield = 0;
    }

    /// The fixed starting configuration. The non-zero event counters
    /// (`rats_ate`, `births`, `harvest_yield`) exist only so that the
    /// opening narration of year one has something to report; they have no
    /// effect on the simulation itself.
    pub fn starting() -> (c: City)
        ensures
            c@ == (CityModel {
                year: 0,
                people: 100,
                land: 1000,
                grain: 2800,
                starved: 0,
                plague_victims: 0,
                births: 5,
                rats_ate: 200,
                harvest_yield: 2,
                total_starved: 0,
                total_plague_deaths: 0,
                total_births: 0,
            }),
            c.well_formed(),
    {
        City {
            year: 0,
            people: 100,
            land: 1000,
            grain: 2800,
            starved: 0,
            plague_victims: 0,
            births: 5,
            rats_ate: 200,
            harvest_yield: 2,
            total_starved: 0,
            total_plague_deaths: 0,
            total_births: 0,
        }
    }
}

impl Default for City {
    /// A city with every counter at zero.
    fn default() -> (c: City)
        ensures
            c@ == (CityModel {
                year: 0,
                people: 0,
                land: 0,
                grain: 0,
                starved: 0,
                plague_victims: 0,
                births: 0,
                rats_ate: 0,
                harvest_yield: 0,
                total_starved: 0,
                total_plague_deaths: 0,
                total_births: 0,
            }),
    {
        City {
            year: 0,
            people: 0,
            land: 0,
            grain: 0,
            starved: 0,
            plague_victims: 0,
            births: 0,
            rats_ate: 0,
            harvest_yield: 0,
            total_starved: 0,
            total_plague_deaths: 0,
            total_births: 0,
        }
    }
}

} // verus!
