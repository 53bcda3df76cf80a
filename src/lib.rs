//! A client-side engine for a JSON-over-WebSocket remote-control protocol:
//! a multi-cursor message buffer, the message codec, the authentication
//! handshake and the session layer that ties them together.
pub mod json;
pub mod subscriber_queue;
pub mod message;
pub mod auth;
pub mod session;
