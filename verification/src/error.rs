use vstd::prelude::*;

verus! {

/// Why an operation on a request was refused.
#[derive(Copy, Clone, PartialEq, Eq, Debug, Structural)]
pub enum RequestError {
    /// `open` was called on a request that is no longer `Unsent`.
    AlreadyOpened,
    /// `send` was called on a request that is not `Opened`.
    NotOpened,
    /// `send` was called on a request that has been sent before.
    AlreadySent,
    /// A notification asked for a move that the lifecycle does not allow.
    InvalidTransition,
    /// The method given to `open` is empty or holds a character that no
    /// method name may hold.
    InvalidMethod,
    /// The URL given to `open` is empty.
    InvalidUrl,
}

impl RequestError {
    /// Whether the error points at a defect in the caller or the transport,
    /// not at a condition to recover from. Rejected arguments of `open` are
    /// the only errors that are not.
    pub open spec fn spec_is_programming_error(self) -> bool {
        self != RequestError::InvalidMethod && self != RequestError::InvalidUrl
    }

    /// Decides whether the error points at a defect in the caller or the
    /// transport.
    pub fn is_programming_error(self) -> (b: bool)
        ensures
            b == self.spec_is_programming_error(),
    {
        match self {
            RequestError::InvalidMethod => false,
            RequestError::InvalidUrl => false,
            _ => true,
        }
    }
}

} // verus!
