//! A versioned toolchain resolver and build/watch pipeline.
//!
//! Given a source file, the library resolves the compiler toolchain for a
//! version, assembles the external compiler invocations that produce a binary
//! artifact, an interface description and language bindings, and drives a
//! debounced rebuild loop for a watched file.  All external effects (process
//! execution, directory creation, filesystem watching) are performed by
//! caller-supplied capabilities; the library decides what to run and proves
//! what those decisions are.

pub mod cache;
pub mod command;
pub mod config;
pub mod env;
pub mod oneshot;
pub mod pipeline;
pub mod text;
pub mod version;
pub mod watch;
