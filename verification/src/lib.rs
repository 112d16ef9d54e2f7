//! Environment-driven generation of a constants file.
//!
//! The library resolves a deployment environment, extracts per-environment
//! canister identifiers from a manifest, selects a fixed settings record for
//! the environment, and renders everything as a deterministic sequence of
//! constant declarations.

pub mod environment;
pub mod manifest;
pub mod settings;
pub mod emit;
pub mod generate;
