//! A name-routed TCP relay library.
//!
//! A single inbound endpoint accepts connections that declare, through a small
//! length-prefixed handshake, which logical service they want; the relay joins
//! each such connection to the matching backend and forwards bytes in both
//! directions until either side closes. An outbound connector lets a local
//! application reach a remote service through the same handshake.
//!
//! This crate holds the verified core: the wire framing, the handshake
//! decisions of both roles, the routing topology, and the byte-level models of
//! the relay and its collaborators. The I/O shell that drives sockets around
//! these functions lives outside the library.

pub mod config;
pub mod echo;
pub mod frame;
pub mod handshake;
pub mod namemap;
pub mod ping;
pub mod proxy;
pub mod session;
