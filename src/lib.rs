//! Simulation core of a snake-and-paddles arcade game: a snake grows by eating
//! a bouncing piece of food that two paddles must keep on the board.

pub mod objects;
pub mod game;
