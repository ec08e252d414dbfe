//! Latency bookkeeping and request/session decisions for a small
//! multiplexed request/response client and server.

pub mod call_timing;
pub mod dispatch;
pub mod session;
pub mod text;
