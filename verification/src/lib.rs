//! A discrete-event simulation substrate for a small synchronous hardware
//! design that issues memory requests to an external, latency-bearing memory
//! subsystem.
//!
//! The engine is built from a time-indexed event queue ([`queue::XEQ`]),
//! storage primitives scheduled through it ([`storage::Array`] and
//! [`storage::FIFO`]), numeric bit-width coercions ([`convert::ValueCastTo`]),
//! a line-oriented initialization-file loader ([`hexload`]), and the per-cycle
//! evaluation loop ([`sim::Simulator`]).  The external memory subsystem is
//! consumed through a narrow request/completion interface; its completions
//! re-enter the timeline as scheduled FIFO pushes ([`sim`]).

pub mod convert;
pub mod modules;
pub mod sim;
pub mod hexload;
pub mod queue;
pub mod storage;
