use vstd::prelude::*;

verus! {

/// Remembers whether cancellation was asked for. Once set, the mark stays.
#[derive(Debug)]
pub struct AbortController {
    aborted: bool,
}

impl View for AbortController {
    type V = bool;

    /// Whether cancellation was asked for.
    closed spec fn view(&self) -> bool {
        self.aborted
    }
}

impl AbortController {
    /// A controller on which nothing was asked for yet.
    pub fn new() -> (c: AbortController)
        ensures
            !c@,
    {
        AbortController { aborted: false }
    }

    /// Whether cancellation was asked for.
    pub fn is_aborted(&self) -> (b: bool)
        ensures
            b == self@,
    {
        self.aborted
    }

    /// Asks for cancellation, and tells whether this call was the first to do
    /// so: only the first has an effect.
    pub fn request(&mut self) -> (first: bool)
        ensures
            final(self)@,
            first == !old(self)@,
    {
        let first = !self.aborted;
        self.aborted = true;
        first
    }
}

} // verus!
