//! Core of a declarative system-generation tool.
//!
//! The library resolves which flake attribute to build for the local host,
//! interprets the package builder's structured build results into a single
//! store path, and drives the two-step sequence that publishes that store
//! path as the active generation and protects it from garbage collection.
//!
//! All external work (running the builder, touching the filesystem) is
//! performed by a thin driver outside this crate; the library exposes the
//! decisions as verified step functions, so the driver only executes the
//! actions the library hands it and feeds the outcomes back in.

pub mod build_result;
pub mod error;
pub mod generate;
pub mod install;
pub mod resolve;
pub mod store_path;

pub use crate::generate::build;
pub use crate::install::generate;
