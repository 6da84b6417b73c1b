//! Small text helpers.

pub mod formatters;
pub mod text;
pub mod wrap;
