//! Polls availability providers, detects changes in the set of free items and
//! fans notifications out to delivery sinks, with cooperative shutdown.

pub mod config;
pub mod error;
pub mod detect;
pub mod service;
mod channel;
pub mod notification;
pub mod provider;
