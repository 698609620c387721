//! Verified core of a terminal-overlay cursor-effect layer.
//!
//! The layer drives an external GPU shader pipeline and composites its output
//! onto the terminal's half-block pixel surface. This crate holds the layer's
//! decision logic: configuration defaults, coordinate reconciliation between
//! the pipeline's inverted image and the terminal surface, the render pass,
//! the control-loop state machine, and the supervision rules that turn loop
//! failures into notifications instead of host crashes. The asynchronous
//! plumbing around it (frame clock, broadcast bus, the pipeline itself) is a
//! host concern and stays outside this crate.

pub mod config;
pub mod errors;
pub mod frame;
pub mod geometry;
pub mod layer;
pub mod protocol;
pub mod image;
pub mod supervisor;
pub mod surface;
