//! Connection broker that hands TCP clients to a pool of on-demand backend
//! processes and relays bytes between the two sockets.
//!
//! The library holds the parts of the broker that decide: parsing of port
//! ranges, choosing a backend port, the argument list of a backend process,
//! the order in which listening addresses are tried, the health of a backend,
//! the retry policy while a backend starts, the relay of one direction of a
//! session, and the lifecycle of a whole session. The program around it does
//! the I/O and feeds the outcomes back in.

pub mod error;
pub mod text;
pub mod port_range;
pub mod address;
pub mod backend;
pub mod relay;
pub mod session;
pub mod pool;
pub mod arguments;
