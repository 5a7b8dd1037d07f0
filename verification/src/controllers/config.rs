//! The configuration endpoint: what a client may know of the configuration.

use vstd::prelude::*;
use crate::env::Env;

verus! {

/// The part of the configuration that clients may know.
#[derive(Debug, Clone, PartialEq, Eq)]
pub struct ConfigResponse {
    pub discord_app_id: String,
}

/// Answers with the application's number and nothing else.
pub fn get(env: &Env) -> (response: ConfigResponse)
    ensures
        response.discord_app_id@ == env.discord_app_id@,
{
    ConfigResponse { discord_app_id: env.discord_app_id.clone() }
}

} // verus!
