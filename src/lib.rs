//! Turn resolution for a game of hand cricket: the player names a number
//! from one to six, the house draws its own from environment readings, and
//! the player scores until the two numbers meet.

pub mod choice;
pub mod game;
