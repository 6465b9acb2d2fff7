//! Die yield estimation: places a lattice of dies over a wafer or panel,
//! classifies every position against the usable area, and derives the die
//! counts that a yield model turns into good and bad dies.

pub mod calculator;
pub mod counts;
pub mod die;
pub mod shape;
pub mod util;
pub mod wafer;
pub mod yield_model;
