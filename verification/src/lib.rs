//! A command-line template renderer's core: arguments, data, context
//! assembly and the drive of an external template engine.
//!
//! The pipeline runs in stages: parse the argument list into a command
//! description, parse the optional data file text into a tree, merge the
//! tree's top-level entries with the inline overrides into one evaluation
//! context (overrides win), and render the template source against that
//! context. File reading and writing stay outside this crate; every stage
//! here works on plain values.

pub mod args;
pub mod context;
pub mod data;
pub mod errors;
pub mod pairs;
pub mod pipeline;
pub mod render;
pub mod text;
