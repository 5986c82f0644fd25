//! Control logic of a progressive path-tracing renderer: the frame and sample
//! lifecycle shared by every renderer, its timers, and its configuration.

pub mod cli;
pub mod renderer;
