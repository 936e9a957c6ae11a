//! A watchdog for a fixed set of HTTP endpoints.
//!
//! Each endpoint is probed at a fixed cadence over a bounded observation
//! window. Failed probes accumulate, and once they pass a threshold one alert
//! mail per configured recipient is issued and the endpoint's monitor stops.
//!
//! The crate holds the decisions only: how a probe is classified, when the
//! failure counter trips, which mails make up an alert, and what a monitor
//! does next. Network, clock and mail transport belong to the caller, which
//! performs each [`monitor::Action`] and reports back with a
//! [`monitor::Event`].

pub mod health;
pub mod tracker;
pub mod server;
pub mod mail;
pub mod config;
pub mod monitor;
pub mod trace;
