//! Bindings for the REST API of the SkyWay WebRTC Gateway: identifiers, message formats,
//! endpoint addresses, and the decisions the client makes on the gateway's replies.

pub mod api;
pub mod common;
pub mod data;
pub mod error;
pub mod foreign;
pub mod media;
pub mod peer;
pub mod session;
pub mod settings;
pub mod text;
