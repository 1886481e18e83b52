//! Verified core of an HTTP/WebSocket gateway in front of a federated
//! custodial e-cash and Lightning backend.
//!
//! The gateway multiplexes one-shot JSON-RPC calls and long-lived
//! subscriptions over a duplex connection, resolves each request to a live
//! per-federation client, and reduces streams of operation lifecycle events
//! to a single terminal outcome. Those three pieces — the client registry,
//! the operation waiter and the connection session — carry the interesting
//! invariants and are verified here, together with the request routing and
//! the per-endpoint request/response logic. Transport, serialization glue
//! and the federation SDK itself live outside this crate.

pub mod admin;
pub mod cashu;
pub mod error;
pub mod events;
pub mod frame;
pub mod ids;
pub mod json;
pub mod ln;
pub mod methods;
pub mod mint;
pub mod registry;
pub mod rest;
pub mod session;
pub mod waiter;
pub mod wallet;
