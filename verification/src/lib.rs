//! Quality-time tracking: a ledger of tracked intervals and manual
//! adjustments, the running summary derived from it, and the command
//! protocol through which a background process is driven.

pub mod analytics;
pub mod channel;
pub mod clock;
pub mod command;
pub mod daemon;
pub mod database;
pub mod error;
pub mod instants;
pub mod laws;
pub mod oauth;
pub mod paths;
pub mod pt_duration;
pub mod session;
pub mod text;
