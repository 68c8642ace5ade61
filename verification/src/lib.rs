//! Parameter and state-synchronization core of an audio-processing plugin.
//!
//! The crate defines the plugin's automatable controls (`registry`), holds
//! their current normalized values (`store`), persists them as an ordered
//! byte stream (`state`), and exposes the host-facing operation surface
//! (`controller`, `factory`).  Normalized and plain values travel through
//! this core as IEEE-754 double bit patterns (`u64`); the dispatch layer
//! around the crate owns the floating-point evaluation of conversion curves.

pub mod controller;
pub mod errors;
pub mod factory;
pub mod params;
pub mod registry;
pub mod state;
pub mod store;
pub mod text;
