//! Requests to, and answers from, the services behind the gateway.

pub mod ai;
pub mod code;
