//! Core rules of a turn-based tactical grid game: grid positions and
//! directions, clamped resource ledgers, weapons, units, and the per-tick
//! resolution of the one action each unit may request.

pub mod grid;
pub mod ledger;
pub mod weapon;
pub mod unit;
pub mod world;
pub mod driver;
