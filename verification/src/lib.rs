//! Digital rain for a terminal: streams of symbols that fall across the
//! screen, fade along a gradient and change their symbols as they go.
//!
//! The library decides what is drawn and where. It keeps the state of every
//! stream, advances it frame by frame and hands back the commands of each
//! frame as plain values; whoever owns the terminal carries them out.
//!
//! Positions and speeds are whole numbers of 1/1024 of a cell, and factors
//! are exact fractions, so that every result is the same on every machine.
//! Random draws all come from one function, `random::random_between`.
pub mod ansi;
pub mod color_parse;
pub mod colors;
pub mod config;
pub mod direction;
pub mod draw;
pub mod entity;
pub mod events;
pub mod matrix;
pub mod random;
pub mod stream;
pub mod symbols;
pub mod text;
