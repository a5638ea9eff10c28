//! Simulation engine of a "digital rain" screen saver: columns of glyphs that
//! appear row by row, flash, fade, mutate and restart after a random pause.
//!
//! The engine is pure state. It decides what is on screen and hands out the
//! strokes to paint; windows, fonts and files belong to the host program.
//!
//! * [`characters`]: glyphs, columns and the field, with the model of a tick.
//! * [`laws`]: what holds of glyphs and columns over any number of ticks.
//! * [`config`], [`setting`], [`alphabets`]: the settings and their changes.
//! * [`timing`], [`session`]: when frames are due and what events lead to.
//! * [`color`], [`text`], [`clock`], [`random`]: the ground the rest stands on.
pub mod alphabets;
pub mod characters;
pub mod clock;
pub mod color;
pub mod config;
pub mod laws;
pub mod random;
pub mod session;
pub mod setting;
pub mod text;
pub mod timing;
