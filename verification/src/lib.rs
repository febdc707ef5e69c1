//! Compile-time enum splicing.
//!
//! A "broad" enum may declare, through an `extends(...)` attribute, that it
//! absorbs the variants of one or more "narrow" enums. This crate holds the
//! splicing engine itself: it parses the attribute's argument list, resolves
//! the named enums inside a compilation scope (following chains where a
//! narrow enum itself extends others), unions the variant lists, rejects
//! name collisions and cyclic extension requests, and emits the rewritten
//! declaration together with conversion routines between each absorbed enum
//! and the broad result.

pub mod args;
pub mod convert;
pub mod emit;
pub mod expand;
pub mod laws;
pub mod model;
pub mod text;
