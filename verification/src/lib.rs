//! A Solana program that greets: every invocation asks the host to log one
//! fixed line and reports success, whatever it is called with.
//!
//! The crate decides what an invocation asks of the host and proves it; the
//! program built around it hands those requests to the runtime.

pub mod handler;
pub mod host;
pub mod laws;

pub use handler::{process_instruction, Outcome, GREETING};
