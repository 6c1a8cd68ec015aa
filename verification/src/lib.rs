//! Executable-trust layer for a small UEFI-booted operating system.
//!
//! A build-time tag embedder wraps a compiled program image in a container
//! carrying an integrity checksum, a context tag and an ABI version; a
//! run-time trust gate parses such a container, validates the tag and the
//! checksum, and yields the original image bytes only if every check passes.
//! A load-and-run state machine combines that verification with the
//! platform's image-loading facilities and a strict/non-strict failure
//! policy.

pub mod checksum;
pub mod console;
pub mod container;
pub mod embed;
pub mod exec_flow;
pub mod gate;
pub mod laws;
pub mod parser;
pub mod status;
