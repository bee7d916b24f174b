//! The error that every rule reports into.

use vstd::prelude::*;

verus! {

/// One rejection, as a sentence for the person who supplied the value.
///
/// The model of an `Error` is its message, a sequence of characters.
#[derive(Clone, Debug, PartialEq, Eq)]
pub struct Error {
    message: String,
}

impl View for Error {
    type V = Seq<char>;

    closed spec fn view(&self) -> Seq<char> {
        self.message@
    }
}

impl Error {
    /// An error that carries `message` unchanged.
    pub fn new(message: String) -> (error: Error)
        ensures
            error@ == message@,
    {
        Error { message }
    }

    /// The message this error was made with.
    pub fn message(&self) -> (message: &str)
        ensures
            message@ == self@,
    {
        self.message.as_str()
    }
}

} // verus!
