//! The configuration that the process is started with. It is made once and
//! handed to whatever needs it.

use vstd::prelude::*;

verus! {

/// The secrets and names that the gateway is configured with.
#[derive(Debug, Clone, PartialEq, Eq)]
pub struct Env {
    /// Authorizes calls to the text and image service.
    pub ai_token: String,
    /// Authorizes calls to the execution service.
    pub code_token: String,
    /// The application's number on the platform.
    pub discord_app_id: String,
    /// Authorizes the exchange of authorization codes.
    pub discord_client_secret: String,
    /// Authorizes calls to the platform.
    pub discord_token: String,
    /// The key that inbound events are signed under, in hexadecimal.
    pub discord_public_key: String,
    /// The secret that bearer credentials are signed with.
    pub jwt_secret: String,
}

} // verus!
