//! Bit-exact model of a handheld game's wild-encounter generation.
//!
//! From a seed and a number of advances the library tells every creature
//! that an encounter can yield, by each of the five ways the game's draws
//! can fall, and the cycles of the frame at which each of them comes about.
//!
//! - `rng` is the random number generator, as a function of seed and step.
//! - `pkm` reads the traits of a creature off the drawn values.
//! - `gen3` holds the slots of an area, the lead's influence and the methods.
//! - `modulo_cycle_count_calc` counts the cycles of the processor's remainder
//!   routine.
//! - `wild_model` says, as mathematics, what one roll draws and costs;
//!   `generator_ng` carries the roll out and records what each method yields;
//!   `generator` holds the options and hands the results out as a flat list;
//!   `wild_laws` proves what holds of every roll.
//! - `largest_pokemon` searches the advances of a setup, and the setups of a
//!   game, for a creature of the largest size.

pub mod gen3;
pub mod generator;
pub mod generator_ng;
pub mod largest_pokemon;
pub mod modulo_cycle_count_calc;
pub mod pkm;
pub mod rng;
pub mod wild_laws;
pub mod wild_model;
