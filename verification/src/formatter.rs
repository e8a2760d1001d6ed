//! The Markdown formatter: its rules, one by one, and the formatter that
//! applies them until the text no longer changes.

pub mod markdown;
pub mod rules;
