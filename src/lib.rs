//! A JSON-RPC caching proxy for blockchain node access: chain routing,
//! cache keys, and the decisions of each request's flow, verified.
pub mod chain;
pub mod key;
pub mod request;
pub mod handler;
pub mod laws;
