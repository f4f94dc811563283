//! The error that the library's fallible operations report: a message meant
//! for the person at the terminal.
use vstd::prelude::*;

verus! {

#[derive(Debug, Clone)]
pub struct Error {
    pub message: String,
    /// What the failure came from, when the library was told: kept apart
    /// from the message, which reads the same either way.
    pub cause: Option<String>,
}

impl Error {
    pub fn new(message: String) -> (e: Error)
        ensures
            e.message@ == message@,
            e.cause is None,
    {
        Error { message, cause: None }
    }

    /// An error with `message`, caused by what `cause` describes.
    pub fn with_cause(message: String, cause: String) -> (e: Error)
        ensures
            e.message@ == message@,
            e.cause matches Some(c) && c@ == cause@,
    {
        Error { message, cause: Some(cause) }
    }

    /// An error whose message is the literal `message`.
    pub fn msg(message: &str) -> (e: Error)
        ensures
            e.message@ == message@,
            e.cause is None,
    {
        Error { message: message.to_string(), cause: None }
    }

    /// The message, as the error reads when shown.
    pub fn to_string(&self) -> (s: String)
        ensures
            s@ == self.message@,
    {
        self.message.clone()
    }
}

} // verus!
