use vstd::prelude::*;

verus! {

/// A success payload produced by a command's execution. The external response
/// renderer consumes it and sends the platform-visible message; this core only
/// produces the value.
#[derive(Debug, Clone, PartialEq, Eq)]
pub struct Response {
    /// The message text handed to the response renderer.
    pub text: String,
}

impl Response {
    /// Wraps a message text as a success payload.
    pub fn new(text: String) -> (r: Response)
        ensures
            r.text == text,
    {
        Response { text }
    }
}

} // verus!
