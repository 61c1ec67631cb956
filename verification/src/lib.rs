//! Board simulation for a hex-grid delivery game: trucks drive over a
//! hexagonal lattice, load goods at factories and sell them at markets,
//! while a tax that keeps rising has to be paid from the proceeds.
//!
//! All quantities that vary continuously (how far a truck has travelled
//! between two hexes, prices, the phase of a price curve) are held in
//! fixed point, in millionths, so that every rule is exact integer
//! arithmetic.

pub mod board;
pub mod cards;
pub mod cells;
pub mod chance;
pub mod economy;
pub mod fixed;
pub mod fleet;
pub mod hex;
pub mod lose;
pub mod modes;
pub mod motion;
pub mod playing;
pub mod spawn;
pub mod trucks;
