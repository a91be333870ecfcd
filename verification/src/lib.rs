//! Connection and discovery core for a calendar-access client.
//!
//! Before any calendar or item operation can run, the client must locate the
//! remote server's root collection and hold a protocol-correct, possibly
//! reused connection to it.  This crate holds the I/O-free core of that
//! machinery: the URI resolver that merges partial and absolute URIs returned
//! by discovery, the decision logic of the resumption loop that drives
//! sans-I/O protocol state machines, the discovery pipeline that sequences
//! the well-known, current-user-principal and calendar-home-set phases while
//! deciding when a connection may be kept, and the backend facade that
//! dispatches calendar and item operations to the configured backend.
//!
//! Byte-level transport, TLS, the wire encoding of the protocol and all
//! terminal presentation are external collaborators; the surrounding binary
//! performs them and feeds their results back into the functions here.

pub mod cal;
pub mod calendar;
pub mod client;
pub mod event;
pub mod item;
pub mod discovery;
pub mod drive;
pub mod text;
pub mod time_range;
pub mod uri;
pub mod vdir;
