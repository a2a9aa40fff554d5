//! A small organism kernel: a topology of organs with health values, an
//! awareness index derived from them, periodic daemons that blend telemetry
//! into health, and a command interpreter over the shared state.
//!
//! Every fractional quantity is held in fixed point: a `u32` count of
//! hundred-thousandths (see [`fixed::SCALE`]).

pub mod fixed;
pub mod organism;
pub mod telemetry;
pub mod kernel;
pub mod text;
pub mod reports;
pub mod command;
pub mod http;
pub mod memory;
pub mod capabilities;
pub mod laws;
