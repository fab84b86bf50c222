//! The error that a command reports to its user.
use vstd::prelude::*;

verus! {

/// An error that carries nothing but its message.
#[derive(Debug, PartialEq, Eq)]
pub struct BotError {
    details: String,
}

impl BotError {
    /// Makes an error with the given message.
    pub fn new(msg: &str) -> (error: BotError)
        ensures
            error.text() == msg@,
    {
        BotError { details: msg.to_owned() }
    }

    /// The characters of the message.
    pub closed spec fn text(&self) -> Seq<char> {
        self.details@
    }

    /// The message.
    pub fn message(&self) -> (message: String)
        ensures
            message@ == self.text(),
    {
        self.details.clone()
    }
}

/// Makes a boxed error with the given message.
pub fn bot_error(msg: &str) -> (error: Box<BotError>)
    ensures
        error.text() == msg@,
{
    Box::new(BotError::new(msg))
}

} // verus!
