//! The endpoints of the gateway: what each decides, apart from the transport.

pub mod ai;
pub mod code;
pub mod config;
pub mod interactions;
pub mod math;
pub mod token;
