//! The code endpoint: runs a program for a signed-in client.

use vstd::prelude::*;
use crate::handlers::commands::code::{execute_request, runs};
use crate::models::api::code::ExecuteRequest;

verus! {

/// A program to run.
#[derive(Debug, Clone, PartialEq, Eq)]
pub struct CodeRequest {
    pub language: String,
    pub code: String,
}

/// What the client is told when the execution service fails.
pub const FAILURE: &'static str = "failed to execute code";

/// The request that the endpoint sends to the execution service.
pub fn execute_code(language: &str, code: &str) -> (request: ExecuteRequest)
    ensures
        runs(request, language@, code@),
{
    execute_request(language, code)
}

/// The request that the endpoint sends to the execution service for what the
/// client sent.
pub fn post(body: &CodeRequest) -> (request: ExecuteRequest)
    ensures
        runs(request, body.language@, body.code@),
{
    execute_code(body.language.as_str(), body.code.as_str())
}

} // verus!
