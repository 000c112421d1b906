//! The error of a state transition.
use vstd::prelude::*;

verus! {

/// The state transition error type: a message that says what went wrong.
#[derive(Debug)]
pub struct StateTransitionError {
    pub msg: String,
}

impl Clone for StateTransitionError {
    fn clone(&self) -> (r: Self)
        ensures
            r == *self,
    {
        StateTransitionError { msg: self.msg.clone() }
    }
}

impl StateTransitionError {
    /// An error carrying `msg`.
    pub fn from_message(msg: String) -> (r: StateTransitionError)
        ensures
            r.msg == msg,
    {
        StateTransitionError { msg }
    }
}

} // verus!
