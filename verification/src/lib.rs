//! Slack mentions and direct messages as trigger events, and outbound Slack
//! messages as JSON-RPC methods.
//!
//! The library decides which events are surfaced, which requests are accepted,
//! what is sent to Slack, how its answers are read and when to connect again. It
//! performs no I/O of its own.

pub mod backend;
pub mod config;
pub mod dispatch;
pub mod events;
pub mod json;
pub mod manifest;
pub mod protocol;
pub mod socket;
pub mod socket_loop;
pub mod text;
pub mod time;
pub mod web_api;
