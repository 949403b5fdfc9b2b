//! Decisions of an inbound HBONE proxy, with their contracts.

pub mod addr;
pub mod forwarded;
pub mod inbound;
pub mod laws;
pub mod message;
pub mod response;
pub mod serve;
pub mod state;
pub mod traceparent;
