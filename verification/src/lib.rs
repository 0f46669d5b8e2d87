//! Execution tracing and interactive stepping for a host interpreter.
//!
//! The host interpreter fires hooks at block, pipeline-element and instruction
//! boundaries.  This crate provides the two hook implementations behind that
//! surface: a textual tracer with a selectable sink and verbosity
//! ([`debug_x::HereticDebuggerX`]) and an interactive single-stepper that talks
//! to a spawned UI process through a rendezvous directory
//! ([`step_debug::HereticStepDebugger`]).  All decisions and all rendered text
//! are produced by verified code; the surrounding process performs the actual
//! writes, spawns and waits.

pub mod config;
pub mod debug_x;
pub mod host;
pub mod render;
pub mod step_debug;
pub mod text;
