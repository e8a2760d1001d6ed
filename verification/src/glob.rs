//! Globs: validation, compilation, matching, and exception lists.

pub mod candidate;
pub mod compile;
pub mod error;
pub mod pattern;
pub mod validate;
pub mod walk;
