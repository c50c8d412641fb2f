use vstd::prelude::*;

verus! {

/// The position of a request in its lifecycle.
#[derive(Copy, Clone, PartialEq, Eq, Debug, Structural)]
pub enum ReadyState {
    /// The request has been created; `open` has not been called yet.
    Unsent,
    /// `open` has been called.
    Opened,
    /// The request has been sent, and the headers and the status are available.
    HeadersReceived,
    /// The body is arriving; the response holds partial data.
    Loading,
    /// The operation is complete.
    Done,
}

impl ReadyState {
    /// The position of the state in lifecycle order, from 0 (`Unsent`) to 4 (`Done`).
    pub open spec fn rank(self) -> nat {
        match self {
            ReadyState::Unsent => 0,
            ReadyState::Opened => 1,
            ReadyState::HeadersReceived => 2,
            ReadyState::Loading => 3,
            ReadyState::Done => 4,
        }
    }

    /// The state that a numeric code stands for, if it stands for one.
    pub open spec fn of_code(code: int) -> Option<ReadyState> {
        if code == 0 {
            Some(ReadyState::Unsent)
        } else if code == 1 {
            Some(ReadyState::Opened)
        } else if code == 2 {
            Some(ReadyState::HeadersReceived)
        } else if code == 3 {
            Some(ReadyState::Loading)
        } else if code == 4 {
            Some(ReadyState::Done)
        } else {
            None
        }
    }

    /// Whether a request may move from `from` to `to` in the ordinary course of
    /// a transfer: one step forward, or from `HeadersReceived` straight to
    /// `Done` when the response has no body.
    pub open spec fn spec_can_transition(from: ReadyState, to: ReadyState) -> bool {
        ||| to.rank() == from.rank() + 1
        ||| (from == ReadyState::HeadersReceived && to == ReadyState::Done)
    }

    /// Whether cancelling a request in state `from` may leave it in state `to`:
    /// cancellation ends in `Done`, from wherever it starts.
    pub open spec fn spec_can_abort_to(from: ReadyState, to: ReadyState) -> bool {
        to == ReadyState::Done
    }

    /// The numeric code of the state.
    pub fn code(self) -> (c: u16)
        ensures
            c == self.rank(),
            ReadyState::of_code(c as int) == Some(self),
    {
        match self {
            ReadyState::Unsent => 0,
            ReadyState::Opened => 1,
            ReadyState::HeadersReceived => 2,
            ReadyState::Loading => 3,
            ReadyState::Done => 4,
        }
    }

    /// The state for a numeric code reported by a transport; `None` for a code
    /// that names no state.
    pub fn from_code(code: u16) -> (r: Option<ReadyState>)
        ensures
            r == ReadyState::of_code(code as int),
            r is Some <==> code <= 4,
            r matches Some(s) ==> s.rank() == code,
    {
        match code {
            0 => Some(ReadyState::Unsent),
            1 => Some(ReadyState::Opened),
            2 => Some(ReadyState::HeadersReceived),
            3 => Some(ReadyState::Loading),
            4 => Some(ReadyState::Done),
            _ => None,
        }
    }

    /// Whether the state is at or past `other` in lifecycle order.
    pub fn at_least(self, other: ReadyState) -> (b: bool)
        ensures
            b == (self.rank() >= other.rank()),
    {
        self.code() >= other.code()
    }

    /// Decides whether the ordinary transition from `from` to `to` is allowed.
    pub fn can_transition(from: ReadyState, to: ReadyState) -> (b: bool)
        ensures
            b == ReadyState::spec_can_transition(from, to),
    {
        match (from, to) {
            (ReadyState::Unsent, ReadyState::Opened) => true,
            (ReadyState::Opened, ReadyState::HeadersReceived) => true,
            (ReadyState::HeadersReceived, ReadyState::Loading) => true,
            (ReadyState::Loading, ReadyState::Done) => true,
            (ReadyState::HeadersReceived, ReadyState::Done) => true,
            _ => false,
        }
    }

    /// Decides whether cancellation may take a request from `from` to `to`.
    pub fn can_abort_to(from: ReadyState, to: ReadyState) -> (b: bool)
        ensures
            b == ReadyState::spec_can_abort_to(from, to),
    {
        match to {
            ReadyState::Done => true,
            _ => false,
        }
    }
}

} // verus!
