//! A verified turn engine for a city-stewardship simulation: one `City`
//! value threads through a ten-year term, each year applying a land trade,
//! feeding, planting, harvest, rats, starvation, births and plague, and the
//! final statistics are mapped to a narrative verdict.

pub mod city;
pub mod decisions;
pub mod engine;
pub mod rolls;
pub mod verdict;
