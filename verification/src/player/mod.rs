//! The player character: its animations and the rules by which input
//! starts, chains and ends its actions.

pub mod animation;
pub mod input;
