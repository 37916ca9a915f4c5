//! The error returned by result sinks when recording fails.

use vstd::prelude::*;

verus! {

/// Error returned by result sinks when recording fails.
#[derive(Debug, Clone, PartialEq, Eq)]
pub struct ResultSinkError {
    message: String,
}

impl View for ResultSinkError {
    type V = Seq<char>;

    /// The error's message.
    closed spec fn view(&self) -> Seq<char> {
        self.message@
    }
}

impl ResultSinkError {
    /// An error carrying `message`.
    pub fn new(message: String) -> (error: Self)
        ensures
            error@ == message@,
    {
        ResultSinkError { message }
    }

    /// The error's message.
    pub fn message(&self) -> (message: &str)
        ensures
            message@ == self@,
    {
        self.message.as_str()
    }
}

} // verus!
