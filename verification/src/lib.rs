//! Orchestrates sequential sessions of an external coding agent over a
//! project's goal list: reads the goal status document, classifies each
//! goal's lifecycle state, and decides when another session is needed.

pub mod driver;
pub mod goals;
pub mod status;
