//! What a tool answers its caller.
use vstd::prelude::*;

verus! {

/// The answer of a tool: an output or an error.
pub struct Response {
    pub output: Option<String>,
    pub error: Option<String>,
}

impl Response {
    /// The answer that hands out a result as it is.
    pub fn of_result(result: Result<String, String>) -> (r: Response)
        ensures
            r == (match result {
                Ok(output) => (Response { output: Some(output), error: None }),
                Err(error) => (Response { output: None, error: Some(error) }),
            }),
    {
        match result {
            Ok(output) => Response { output: Some(output), error: None },
            Err(error) => Response { output: None, error: Some(error) },
        }
    }
}

}
