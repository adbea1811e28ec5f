//! A linter for Markdown texts: the line-length rule.

pub mod patterns;
pub mod chars;
pub mod config;
pub mod wrapping;
pub mod md013;
