//! Graphics-context lifecycle for a client that clears the screen and draws
//! one static triangle each frame.
//!
//! The verified core models the decisions of the renderer: GPU option
//! parsing, adapter negotiation parameters, surface configuration and
//! resize, the fixed triangle geometry and pipeline description, and the
//! per-frame acquire/record/submit/present cycle with its failure
//! classification. The unverified shell around the library performs the
//! actual backend, window and GPU driver calls and feeds their outcomes
//! back into the verified state machine.

pub mod config;
pub mod context;
pub mod geometry;
pub mod negotiate;
pub mod options;
pub mod pipeline;
pub mod render;
