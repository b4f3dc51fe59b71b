//! Verified core of an auto-accept helper for the League client: the text and JSON
//! handling, the discovery of the client's credentials, the decoding of its events,
//! the persisted settings and the service state machine that decides when to accept.
pub mod json;
pub mod lcu;
pub mod settings;
pub mod state;
pub mod service;
pub mod text;
pub mod tray;
