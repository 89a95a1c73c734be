//! A one-cell snake game on a bounded grid: heading, stepping, apples, score
//! and the transition that one tick makes, each with a contract proved by Verus.

pub mod apple;
pub mod direction;
pub mod game;
pub mod render;
pub mod snake;
