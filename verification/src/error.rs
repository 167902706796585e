//! The ways in which the engine can fail.

use vstd::prelude::*;

verus! {

/// The engine's failures. None of them is retried by the engine itself.
#[derive(Clone, Copy, Debug, PartialEq, Eq, Structural)]
pub enum EngineError {
    /// An expected pattern is absent from a response body.
    Parse,
    /// The network or TLS layer failed.
    Transport,
    /// The long poll answered with a nonzero return code: the server has
    /// ended the session.
    SessionTerminated,
    /// An authenticated request was attempted with a credential unset.
    Precondition,
}

impl EngineError {
    /// A short description of the failure.
    pub fn message(&self) -> (r: &'static str)
        ensures
            r@ == match *self {
                EngineError::Parse => "expected pattern absent in response"@,
                EngineError::Transport => "transport failure"@,
                EngineError::SessionTerminated => "session ended by server"@,
                EngineError::Precondition => "credentials not set"@,
            },
    {
        match self {
            EngineError::Parse => "expected pattern absent in response",
            EngineError::Transport => "transport failure",
            EngineError::SessionTerminated => "session ended by server",
            EngineError::Precondition => "credentials not set",
        }
    }
}

} // verus!
