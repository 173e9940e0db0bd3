//! Read-side ingestion for a relay-based social feed.
//!
//! Events arrive from relays, are told apart by kind, and posts are paired
//! with the display name of their author before they are handed on. The
//! crate holds the decisions of that flow; connecting, subscribing and
//! sending are left to the caller, who performs each [`protocol::Action`]
//! and reports back with a [`protocol::Input`].

pub mod cache;
pub mod classifier;
pub mod event;
pub mod laws;
pub mod model;
pub mod pipeline;
pub mod profile;
pub mod protocol;
pub mod relay;
pub mod startup;
pub mod timeline;
