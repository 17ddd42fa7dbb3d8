//! Splash-to-main window handoff: a step machine for the two frontend
//! operations, a window registry model, and the operations run against it.
pub mod coordinator;
pub mod handoff;
pub mod registry;
