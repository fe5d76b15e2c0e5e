//! Core of a two-paddle ball game: per-tick simulation of paddle motion,
//! constant-speed ball motion, wall and paddle collisions, scoring, and the
//! screen-mode state machine. Rendering, audio and input plumbing live in an
//! unverified adapter around this crate; the core exchanges plain values with
//! it and is verified in full.

pub mod config;
pub mod geometry;
pub mod state;
pub mod tick;
pub mod laws;
