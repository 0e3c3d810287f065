//! Decision core of an autonomous "celestial body" taking part in a
//! multi-agent resource simulation.
//!
//! The body owns a bank of energy cells and at most one defense rocket.  It
//! reacts to coordinator commands (power events, defense events, lifecycle
//! commands, introspection) and to service requests from visiting agents
//! (catalog queries, resource generation, resource combination).  All of the
//! decision logic lives here, verified; channel plumbing and the surrounding
//! game harness stay outside the crate.

pub mod actor;
pub mod archetype;
pub mod capability;
pub mod kinds;
pub mod laws;
pub mod logbook;
pub mod policy;
pub mod state;
