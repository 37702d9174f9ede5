//! Host-side library for sandboxed cloud-provisioning provider modules.
//!
//! A provider module is an untrusted, separately compiled binary artifact.
//! Before such a module runs, the host must evaluate the module's declarative
//! configuration into a validated descriptor, locate the matching artifact on
//! disk, check the artifact's exported interface against a fixed schema, and
//! build an execution context that grants exactly the declared capabilities
//! and nothing more.  This crate holds those four steps as verified, purely
//! computational functions; reading directories, loading binaries and running
//! instances stay with the surrounding program, which feeds plain values in
//! and out.

pub mod caps;
pub mod descriptor;
pub mod errors;
pub mod eval;
pub mod interface;
pub mod lex;
pub mod mounts;
pub mod resolver;
pub mod sandbox;
pub mod sources;
pub mod strutil;
pub mod wasi;
