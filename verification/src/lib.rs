//! A conformance harness core for PVM (program virtual machine) backends:
//! a backend-agnostic execution interface, a multi-backend runner that
//! broadcasts every operation and merges the results under a deterministic
//! divergence-reporting policy, and the line-delimited JSON protocol that
//! lets an external executable act as a backend.
//!
//! The host program around this library performs the outside work — it
//! spawns subprocesses, moves bytes over their pipes, and drives the
//! embedded engine — and hands the outcomes back as plain events; every
//! decision about state, framing, merging and reporting is made here.

pub mod api;
pub mod config;
pub mod json;
