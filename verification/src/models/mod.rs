//! The data that the gateway exchanges with its callers and collaborators.

pub mod api;
pub mod auth;
pub mod custom_id;
pub mod interaction;
pub mod registration;
pub mod reply;
