//! A sixteen-step drum sequencer core: scales, step grids, the loop clock,
//! voice layering and envelope shaping, all in exact integer arithmetic.

pub mod dialog;
pub mod envelope;
pub mod grid;
pub mod noise;
pub mod saveload;
pub mod scale;
pub mod tenori;
pub mod timbre;
pub mod units;
