use vstd::prelude::*;

verus! {

/// A failure raised while dispatching an invocation or answering the platform.
#[derive(Debug, Clone, PartialEq, Eq)]
pub enum CadencyError {
    /// Sending a reply to the platform failed.
    Response,
    /// A failure raised inside a command's execution, carrying the
    /// user-visible message the response renderer should show.
    Command(String),
}

impl CadencyError {
    /// The user-visible message for this failure.
    pub fn message(&self) -> (r: String)
        ensures
            match self {
                CadencyError::Response => r@ == "Interaction response failed"@,
                CadencyError::Command(m) => r@ == m@,
            },
    {
        match self {
            CadencyError::Response => "Interaction response failed".to_owned(),
            CadencyError::Command(m) => m.clone(),
        }
    }
}

} // verus!
