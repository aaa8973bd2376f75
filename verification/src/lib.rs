//! A single die of a tabletop game: its kind, its bounds, what it last
//! showed, and the marks a roll leaves on it.

pub mod ambient;
pub mod die;
pub mod laws;
