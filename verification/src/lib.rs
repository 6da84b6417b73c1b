//! Interactive session engine of a terminal dashboard for an issue tracker.
//!
//! The library holds what the dashboard decides and computes: the cursor of
//! a list, the cycle of the views, what each event changes and what it asks
//! for, how a request is built and a response judged, and what each panel
//! shows. It neither waits nor draws nor fetches: the program around it
//! hands in events and fetched records, and carries out the commands that
//! come back.
//!
//! - [`ui::selection`]: the cursor over a list, with wraparound.
//! - [`ui::view`]: the three views and their cyclic order.
//! - [`ui::events`]: the events and the rules of the event queue.
//! - [`ui::app`]: the session state and its controller.
//! - [`ui::components`]: the lists of issues, projects and teams, and the
//!   help overlay.
//! - [`client`]: the records, the requests and the reading of responses.
//! - [`config`], [`cli`], [`app`]: settings, options and the credential.
//! - [`utils`]: formatting, truncation and wrapping of text.

pub mod app;
pub mod cli;
pub mod client;
pub mod config;
pub mod ui;
pub mod utils;
