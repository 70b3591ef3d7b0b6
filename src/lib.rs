//! A status-broadcast hub: updaters push a short "person is" status, and
//! displayers receive the current status on connect, on every change, and on
//! a heartbeat.
//!
//! The library holds the protocol's data model, the length-delimited wire
//! framing, the per-connection and listener state machines of the hub with
//! the laws they obey, the direct-message webhook logic, and the displayer
//! client's reconnect and redraw decisions. Sockets, timers and the
//! broadcast channel are driven by the program around it.

pub mod timestamp;
pub mod protocol;
pub mod framing;
pub mod connection;
pub mod listener;
pub mod hub;
pub mod json;
pub mod webhook;
pub mod client;
