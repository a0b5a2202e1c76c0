//! Bindings generator for Futhark libraries.
//!
//! The Futhark compiler describes every library that it compiles in a
//! manifest: the entry points, and the types that they take and return.
//! This crate reads that manifest and lays out safe Rust bindings over the
//! C code of the library: one interface for all backends, one
//! implementation of it for each target, the opaque types that the
//! pointers of the interface point to, a safe wrapper for each array type,
//! and a context with one method for each entry point.
//!
//! - [`manifest`] holds the model of a manifest and reads it from JSON.
//! - [`target`] knows the backends.
//! - [`syntax`] holds the declarations that bindings are made of, and
//!   [`template`] lays the bindings out and writes them as Rust source.
//! - [`generator`] holds the settings of a run and plans its steps;
//!   [`prefix`] sets the C symbols of the targets apart.
//!
//! Everything here computes on values. Reading and writing files and
//! calling the compilers is left to the program that runs the steps.

pub mod generator;
pub mod json;
pub mod manifest;
pub mod prefix;
pub mod syntax;
pub mod target;
pub mod template;
pub mod text;

pub use generator::Generator;
pub use target::{Target, TargetSet};
