//! The native side of a scripting-host binding for an audio engine: the closable
//! cell that holds the engine, and the rules by which host calls reach it.

pub mod config;
pub mod custom_output;
pub mod encapsulator;
pub mod panic_handling;
pub mod shared_engine;
pub mod utils;
