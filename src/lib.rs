//! Safe bridging between a host program and a stack-based scripting engine.
//!
//! The library decides, for every exchange with the engine, which stack
//! operations to perform and how to read back what the engine reports; the
//! embedding layer performs those operations against the engine itself.

pub mod bind;
pub mod call;
pub mod callback;
pub mod chunk;
pub mod coerce;
pub mod coroutine;
pub mod dispatch;
pub mod error;
pub mod guard;
pub mod marshal;
pub mod protect;
pub mod registry;
pub mod value;
