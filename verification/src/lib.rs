//! Keeps a cloud firewall allow-list in step with the caller's public address.
//!
//! The crate holds the decisions of the reconciliation engine: the entry
//! model, the classification of remote failures, the diff between the
//! desired set and the entries this tool owns, and the step functions that a
//! driver runs against the remote API.

pub mod batch;
pub mod cidr;
pub mod cidr_set;
pub mod classify;
pub mod client;
pub mod config;
pub mod convergence;
pub mod diff;
pub mod entry;
pub mod error;
pub mod fetch;
pub mod helpers;
pub mod http;
pub mod instance;
pub mod ip;
pub mod poll;
pub mod reconcile;
pub mod text;
pub mod xml;
