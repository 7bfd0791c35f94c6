//! Game rules of a small tower-defence game: a witch brews potions on a
//! spinning dial, a bird carries them from the tower and drops them on
//! slimes of the matching element, and slimes that reach the tower hurt it.
//!
//! Everything here works on plain values; drawing, timing and physics (which
//! use floating point) are done by the program around this library.

pub mod animation;
pub mod bird;
pub mod slime;
mod random;
pub mod stuff;
pub mod tower;
pub mod witch;

