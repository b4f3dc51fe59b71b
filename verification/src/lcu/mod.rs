//! The League Client Update API: credentials, requests and events.
pub mod client;
pub mod discovery;
pub mod types;
pub mod websocket;
