//! A minimal on-chain access-control primitive: a single persistent "pinger"
//! role is assigned once to one account, and only the holder of that role may
//! emit the authenticated `Ping` signal; anyone may emit the unauthenticated
//! `Pong` acknowledgment carrying a 32-byte transaction hash.

pub mod account;
pub mod contract;
pub mod errors;
pub mod events;
pub mod hash;
pub mod host;
pub mod laws;
