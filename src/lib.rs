//! A ball-and-paddle arcade simulation over integer world units.

pub mod arith;
pub mod game;
pub mod laws;
pub mod model;

