//! Path-pattern matching for a Markdown formatting tool: a restricted glob
//! grammar, ordered include/exclude lists, and the decisions of a pruning
//! directory walk, together with the formatter and the configuration that
//! the tool is built around.

pub mod commands;
pub mod config;
pub mod console;
pub mod diagnostics;
pub mod engine;
pub mod formatter;
pub mod glob;
pub mod text;
pub mod workspace;
