//! What stands between a request and its endpoint.

pub mod ratelimit;
