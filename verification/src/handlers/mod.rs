//! The handlers that events are routed to.

pub mod commands;
pub mod modals;
