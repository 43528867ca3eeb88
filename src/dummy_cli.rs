use vstd::prelude::*;

verus! {

/// A command sent over the plain HTTP route.
#[derive(Debug)]
pub struct CliInput {
    pub command: String,
}

/// The answer of the plain HTTP route: the output, or the error's text,
/// with `"success"` or `"error"`.
#[derive(Debug)]
pub struct CliResponse {
    pub output: String,
    pub status: String,
}

impl CliResponse {
    pub fn from_result(result: Result<String, String>) -> (r: CliResponse)
        ensures
            match result {
                Ok(out) => r.output@ == out@ && r.status@ == "success"@,
                Err(e) => r.output@ == e@ && r.status@ == "error"@,
            },
    {
        match result {
            Ok(output) => CliResponse { output, status: String::from_str("success") },
            Err(e) => CliResponse { output: e, status: String::from_str("error") },
        }
    }
}

} // verus!
