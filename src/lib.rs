//! Rules engine for a solitaire, dice-driven survival game: a damaged
//! scouting vessel leaps from system to system, meets enemy fighters,
//! fights, salvages, refuels and repairs before leaping again.

pub mod dice;
pub mod threat;
pub mod text;
pub mod ship;
pub mod pilot;
pub mod combat;
pub mod leap;
pub mod expedition;
pub mod scout;
pub mod selection;
