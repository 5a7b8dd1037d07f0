//! The math endpoint: evaluates an expression for a signed-in client.

use vstd::prelude::*;

verus! {

/// An expression to evaluate.
#[derive(Debug, Clone, PartialEq, Eq)]
pub struct MathRequest {
    pub input: String,
}

/// What evaluating gave: the result, or the reason why there is none.
#[derive(Debug, Clone, PartialEq, Eq)]
pub struct MathResponse {
    pub success: bool,
    pub output: String,
}

/// Answers with what the evaluator gave.
pub fn post(evaluation: Result<String, String>) -> (response: MathResponse)
    ensures
        response.success == evaluation is Ok,
        response.output == (match evaluation {
            Ok(value) => value,
            Err(reason) => reason,
        }),
{
    match evaluation {
        Ok(value) => MathResponse { success: true, output: value },
        Err(reason) => MathResponse { success: false, output: reason },
    }
}

} // verus!
