//! A grid snake simulation: a chain of segments that advances one cell per
//! tick, grows one tick after eating, and ends when the head runs into the
//! wall ring or into its own body.
//!
//! Every executable function carries a contract over a mathematical model of
//! the state it touches, and the model's laws are proved next to it.

pub mod cell;
pub mod chain;
pub mod collision;
pub mod direction;
pub mod food;
pub mod grid;
pub mod pending;
pub mod simulation;
pub mod timer;
