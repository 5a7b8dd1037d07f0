//! Interaction gateway for a chat platform: request authentication, the
//! correlation identifier codec, rate-limit key derivation, event routing and
//! the reply protocol, with every function carrying a machine-checked contract.

pub mod args;
pub mod controllers;
pub mod env;
pub mod error;
pub mod handlers;
pub mod lifecycle;
pub mod math;
pub mod middleware;
pub mod models;
pub mod registry;
pub mod signature;
pub mod text;
