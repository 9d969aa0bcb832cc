//! A dynamic tiling window manager core for X11, as a verified state machine.

pub mod client;
pub mod config;
pub mod error;
pub mod flags;
pub mod geometry;
pub mod keysym;
pub mod laws;
pub mod rdwm;
pub mod tiling;
pub mod workspace;
pub mod xproto;
