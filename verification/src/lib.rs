//! A lightweight host-telemetry pipeline: measurement probes feed
//! timestamped messages through a hand-off channel to an export stage that
//! retries failed deliveries out of a one-slot buffer, backing off with a
//! capped, jittered exponential delay.
pub mod assoc;
pub mod channel;
pub mod collectors;
pub mod config;
pub mod error;
pub mod exporters;
pub mod message;
pub mod strutil;
pub mod url;
pub mod value;
