//! Device-communication core for a four-channel programmable power supply
//! driven over a serial line with a textual, newline-terminated protocol.
//!
//! The crate is organised sans-I/O: every decision the device loop makes —
//! framing lines, formatting commands, parsing responses, selecting ranges,
//! latching status bits, and sequencing the connect/identify/poll cycle —
//! is a verified function over plain values.  An unverified shell performs
//! the actual serial reads and writes and feeds the results back in.

pub mod codec;
pub mod commands;
pub mod config;
pub mod discovery;
pub mod dispatch;
pub mod error;
pub mod numbers;
pub mod range;
pub mod responses;
pub mod state;
pub mod status;
pub mod supervisor;
pub mod telemetry;
pub mod text;
