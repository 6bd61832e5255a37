//! A falling-sand cellular automaton: a dense grid of particles that is
//! advanced one sweep at a time, with every rule stated over a mathematical
//! model of the grid and proved against it.

pub mod chance;
pub mod debug_tools;
pub mod falling_sand;
pub mod footprint;
pub mod frame;
pub mod grid;
pub mod input;
pub mod laws;
pub mod overlay;
pub mod pen;
pub mod rules;
