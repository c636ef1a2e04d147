//! Frame-by-frame sprite animation for a small action game.
//!
//! - [`animation`] describes animations: timed frames played once, in a
//!   loop or back and forth.
//! - [`animation::state`] holds the playback cursor of one animation
//!   instance and the rule by which elapsed time moves it.
//! - [`animation::laws`] states what holds of playback in every animation.
//! - [`animation::sprite`] selects the animation of one entity. A selected
//!   animation that plays once locks the selector until it has ended; one
//!   more animation can be queued behind it.
//! - [`player`] holds the animations of the player character and the rules
//!   by which input starts, chains and ends its dashes and attacks.
//! - [`health`] holds the health of a character.
//!
//! Every function states what it returns or changes over a mathematical
//! view of its data, and is proved to do so. Time is counted in whole
//! nanoseconds throughout. Nothing here reads a clock, a keyboard or a
//! file: the caller hands over what it has read as plain values.

pub mod animation;
pub mod health;
pub mod player;
