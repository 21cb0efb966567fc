//! Expands a declarative description of a database aggregate into the flat
//! entry points that the engine calls and a descriptor that registers it.

pub mod attribute;
pub mod compiler;
pub mod error;
pub mod laws;
pub mod model;
pub mod names;
pub mod resolve;
pub mod synth;
