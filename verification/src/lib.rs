//! Decision logic for building and driving small media pipelines.
//!
//! The media framework itself stays outside: this library decides what to
//! build, where a newly discovered stream is connected, and how the
//! controlling loop reacts to each event on the pipeline's feed. Every
//! decision is a total function on plain values with a proved contract.

pub mod assembler;
pub mod builder;
pub mod builder_laws;
pub mod console;
pub mod lifecycle;
pub mod lifecycle_laws;
pub mod linker;
pub mod linker_laws;
pub mod media;
