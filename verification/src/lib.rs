//! A client core that multiplexes many concurrent requests over one duplex
//! byte-stream connection: requests are framed as newline-delimited JSON,
//! responses arrive in any order, and a pending-request table routes each
//! response back to exactly the caller that issued the matching request.
//!
//! The asynchronous plumbing (socket, queues, the writer and reader tasks)
//! lives outside this library; the decisions those tasks make — identifier
//! allocation, framing, parsing, correlation, and the error taxonomy — are
//! here, each with a verified contract.

pub mod client;
pub mod codec;
pub mod controls;
pub mod errors;
pub mod pending;
