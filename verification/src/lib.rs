//! The deciding half of a tunnel endpoint.
//!
//! A session takes framed messages from an inbound transport, looks at the
//! first bytes to tell which proxy protocol the client speaks, and relays the
//! payload to an upstream destination. Everything here is free of I/O: each
//! operation takes what the transport or the network has just produced and
//! answers with the next thing to do. A driver performs those actions and
//! hands the outcome back.
//!
//! - [`stream`]: the session, a byte stream with look-ahead over the events
//!   of the transport; its keep-alive task; its classification.
//! - [`transport`]: the events that the transport hands to a session.
//! - [`config`]: the settings of a session.
//! - [`classifier`]: the byte positions that tell the protocols apart.
//! - [`connector`]: the outbound paths, TCP relay and DNS datagram.
//! - [`dns`]: name lookups and DNS-over-HTTPS exchanges.
//! - [`http`]: requests as values, and fetches with a status check.
//! - [`laws`]: what holds over whole runs of these operations.
//! - [`buffer`]: the one place where outside code is taken on trust, the
//!   `bytes` buffer that a session keeps its bytes in.

pub mod buffer;
pub mod classifier;
pub mod config;
pub mod connector;
pub mod dns;
pub mod http;
pub mod laws;
pub mod stream;
pub mod transport;
