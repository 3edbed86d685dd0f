//! The core of a group chat service.
//!
//! Clients connect to a group over a duplex stream. Each group has at
//! most one broadcast channel, kept in the `registry`; a connection
//! attaches to it, stores what its client sends and publishes it to the
//! group (`inbound`), forwards what the group publishes (`outbound`), and
//! detaches when it ends. Who may connect is settled by the handshake in
//! `connection`. Membership changes (`groups`, `invitations`,
//! `lifecycle`) and accounts are conversations with a `store` that is
//! not part of this library: the library decides what to ask next and
//! how an answer ends the operation. `wire` holds the frames and their
//! JSON text, `client` the other end of the line.
//!
//! Everything that waits on the outside world is written as a step
//! function; `machine` states what such functions do over whole runs.

pub mod accounts;
pub mod channel;
pub mod client;
pub mod connection;
pub mod error;
pub mod groups;
pub mod inbound;
pub mod invitations;
pub mod lifecycle;
pub mod machine;
pub mod models;
pub mod outbound;
pub mod registry;
pub mod store;
pub mod wire;
