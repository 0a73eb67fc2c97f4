//! The evaluator: maps the accumulated statistics of a finished term to
//! one of four narrative outcomes by fixed threshold rules.

use vstd::prelude::*;
use crate::city::City;

verus! {

/// The four narrative outcomes, from impeachment to acclaim.
#[derive(Clone, Copy, Debug, PartialEq, Eq, Structural)]
pub enum Verdict {
    Fink,
    HeavyHanded,
    Fair,
    Good,
}

/// Outcome selection from the average yearly starvation and the acres per
/// person at the end of the term; the rules are tested in order and the
/// first match wins.
pub open spec fn verdict_of(avg_starved: int, avg_acres: int) -> Verdict {
    if avg_starved > 33 {
        Verdict::Fink
    } else if avg_starved > 10 || avg_acres < 9 {
        Verdict::HeavyHanded
    } else if avg_starved > 3 {
        Verdict::Fair
    } else {
        Verdict::Good
    }
}

/// Evaluate a finished term of office.
///
/// The averages are truncating integer divisions. A term is at least one
/// year. Evaluating a city without people would divide by zero, so the
/// caller must rule that out — zero population is this crate's documented
/// game-over guard, not an input to the evaluator. A negative
/// `total_starved` (reachable only through the documented negative
/// starvation oddity) is likewise excluded: the averages are averages of
/// non-negative yearly counts.
pub fn evaluate(c: &City) -> (r: Verdict)
    requires
        c.well_formed(),
        c@.year >= 1,
        c@.people >= 1,
        c@.total_starved >= 0,
    ensures
        r == verdict_of(c@.total_starved / c@.year, c@.land / c@.people),
{
    let avg_starved = c.total_starved / c.year;
    let avg_acres = c.land / c.people;
    if avg_starved > 33 {
        Verdict::Fink
    } else if avg_starved > 10 || avg_acres < 9 {
        Verdict::HeavyHanded
    } else if avg_starved > 3 {
        Verdict::Fair
    } else {
        Verdict::Good
    }
}

} // verus!
