//! A transparent TCP relay engine: per-connection pipe pairs move bytes in
//! both directions between a client and a backend, offering every unit of
//! traffic to one shared, serialized packet handler before it is forwarded.
//! This crate holds the engine's whole decision logic — the pipe's
//! read / inspect / write cycle, the fail-fast join of a session's two
//! directions, and the accept loop's policy — as verified state machines and
//! functions; the sockets and tasks that drive them live outside.

pub mod packet_handler;
pub mod pipe;
pub mod server;
pub mod session;
