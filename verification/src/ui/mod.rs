//! View state machine, selection model and session controller.

pub mod app;
pub mod components;
pub mod events;
pub mod selection;
pub mod view;
