//! The three lists of the dashboard and the help overlay.

pub mod help;
pub mod issues;
pub mod projects;
pub mod style;
pub mod teams;
