//! A modular real-time synthesizer core: parameter channels that carry
//! configuration snapshots to the audio thread, and sample generators and
//! effects that compose into one voice.
//!
//! Amplitudes, gains and frequencies are fixed-point numbers with sixteen
//! fractional bits (see [`sample`]).

pub mod chain;
pub mod combinators;
pub mod config;
pub mod controllers;
pub mod effects;
pub mod sample;
pub mod synth;
pub mod ui;
pub mod voices;
