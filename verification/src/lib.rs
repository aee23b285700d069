//! A two-dimensional physics sandbox: static boundary walls and spawned
//! balls, kept in a rigid-body engine's sets and driven frame by frame.
//!
//! The crate holds the decisions of the simulation-and-render loop: when a
//! press of the spawn input creates a ball, which handles the world knows,
//! what the render list caches, and in which order the stages of a frame
//! run. Numeric work (coordinate mapping, building shapes, advancing the
//! engine) is supplied by the caller.

pub mod engine;
pub mod frame;
pub mod render;
pub mod spawner;
pub mod world;
