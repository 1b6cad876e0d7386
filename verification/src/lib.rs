//! A scene-graph execution engine: a registry of nodes, each with a resolved
//! chain of behavior layers, driven by a fixed-cadence loop.
//!
//! The tree decides and its driver acts: `NodeTree::run` and
//! `NodeTree::advance` give one request at a time (call this hook, start an
//! iteration, poll for cancellation, ask the input source, wait), and take
//! the driver's reply. What the tree asks for, and in which order, is stated
//! in `tree` and proved in `laws`.

pub mod chain;
pub mod color;
pub mod error;
pub mod input;
pub mod laws;
pub mod node;
pub mod pacer;
pub mod traits;
pub mod tree;
