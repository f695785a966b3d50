use vstd::prelude::*;

verus! {

/// A structured failure surfaced to callers of the pipeline: a
/// human-readable message together with a stable machine-readable code
/// naming the failure condition.
#[derive(Debug)]
pub struct AgentError {
    pub message: String,
    pub code: String,
}

impl AgentError {
    /// Builds an error from a stable code and an already-composed message.
    pub fn new(code: &str, message: String) -> (e: AgentError)
        ensures
            e.code@ == code@,
            e.message == message,
    {
        AgentError { message, code: String::from_str(code) }
    }

    /// Builds an error whose message is a fixed string, for conditions
    /// that carry no further detail.
    pub fn fixed(code: &str, message: &str) -> (e: AgentError)
        ensures
            e.code@ == code@,
            e.message@ == message@,
    {
        AgentError { message: String::from_str(message), code: String::from_str(code) }
    }

    /// Turns a bare message into an error under the generic code.
    pub fn from_message(err: String) -> (e: AgentError)
        ensures
            e.message == err,
            e.code@ == "ERROR"@,
    {
        AgentError { message: err, code: String::from_str("ERROR") }
    }
}

impl Clone for AgentError {
    fn clone(&self) -> (r: Self)
        ensures
            r == *self,
    {
        AgentError { message: self.message.clone(), code: self.code.clone() }
    }
}

impl From<String> for AgentError {
    fn from(err: String) -> (e: Self) {
        AgentError::from_message(err)
    }
}

// The conversion's contract lives on `from_message`: `from_spec` would
// have to name the exact error value, and no `String` value can be
// written in specification code, so the trait-level spec is left
// unclaimed.
impl vstd::std_specs::convert::FromSpecImpl<String> for AgentError {
    open spec fn obeys_from_spec() -> bool {
        false
    }

    open spec fn from_spec(t: String) -> Self {
        AgentError { message: t, code: t }
    }
}

} // verus!
