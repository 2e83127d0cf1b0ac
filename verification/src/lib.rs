//! Supervisor for a locally spawned backend server process.
//!
//! The library holds the decision logic of a desktop shell's backend
//! supervisor: locating the backend entry point across packaged and
//! development install layouts, planning a spawn with a single interpreter
//! fallback, classifying the outcome of a bounded health probe, and the
//! idempotent start/stop transitions on the shared supervisor state.
//! All effects (filesystem probes, process spawn and kill, HTTP requests)
//! are performed by the surrounding shell, which drives these verified
//! state machines and decision functions.

pub mod health;
pub mod paths;
pub mod supervisor;
pub mod window;

