//! A bridge between a line-delimited JSON-RPC daemon and two HTTP surfaces:
//! a webhook that receives every inbound event, and a REST gateway for a
//! fixed set of actions.
//!
//! This crate holds the decisions of that bridge, each with a contract:
//! how the byte stream is cut into frames, what the two halves of the
//! transport report, which calls the daemon is asked to serve, how the event
//! relay reacts to what happens around it, and which requests the gateway
//! lets through. Sockets, HTTP and the client engine are the caller's.

pub mod client;
pub mod codec;
pub mod gateway;
pub mod relay;
pub mod transport;
