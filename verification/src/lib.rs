//! A query facade over a full node and an address index.
//!
//! The facade decides which collaborator answers a request, in which order
//! several requests are made, how replies are reshaped and how failures are
//! reported. [`Query`](query::Query) does so over a backend that the caller
//! supplies: a function that carries one request to the node or to the index
//! and brings back what it answered. The facade itself performs no input or
//! output, and an operation can also be had as an
//! [`Exchange`](exchange::Exchange), which names the next request to make and
//! is resumed with the reply.

pub mod answer;
pub mod backend;
pub mod drive;
pub mod error;
pub mod exchange;
pub mod fee;
pub mod ident;
pub mod json;
pub mod laws;
pub mod query;
pub mod wire;
