//! Build-automation library for an installer-authoring toolchain.
//!
//! The library is the verified core of a small build driver: it resolves a
//! persisted configuration into toolchain invocation parameters, renders each
//! toolchain step as a quoted shell command, tokenizes commands the way the
//! process launcher does, and decides the order of the compile and package
//! steps. All filesystem and process work stays outside the library; callers
//! hand in plain values (file contents, path-existence answers, step
//! outcomes) and receive plain values back.

pub mod config;
pub mod params;
pub mod command;
pub mod tokens;
pub mod orchestrator;
pub mod runner;
