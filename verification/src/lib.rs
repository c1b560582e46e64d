//! Decision logic of a small TCP reverse tunnel: a server that accepts
//! visitors and hands them to a "master" client, which opens worker
//! connections back to the server and relays them to a local service.
//!
//! The network plumbing lives outside this crate; what is here are the
//! protocol's values and the decisions taken on them, each with a contract.

pub mod addr;
pub mod message;
pub mod relay;
pub mod server;
pub mod session;
pub mod time;

