//! A discrete-time cellular automaton in the "falling sand" style.
//!
//! A grid of cells, each holding one particle, advances one synchronized
//! step per call to [`grid::Grid::tick`]. Every particle kind follows a
//! small local rule over its 3x3 neighbourhood: salt falls and dissolves
//! in water, water flows with a remembered direction, wood tumbles, a
//! cornucopia endlessly spawns copies of the first kind it ever touched,
//! while background and concrete never move.

pub mod actions;
pub mod background;
pub mod colour;
pub mod concrete;
pub mod cornucopia;
pub mod grid;
pub mod kinds;
pub mod laws;
pub mod particle;
pub mod point;
pub mod processable;
pub mod salt;
pub mod slot;
pub mod water;
pub mod wood;
