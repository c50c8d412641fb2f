use crate::error::RequestError;
use crate::ready_state::ReadyState;
use crate::transport::{BodyModel, CommandModel, Event, NotificationModel, OperationHandle};
use vstd::prelude::*;

verus! {

/// The status that a request shows when it ended before any headers arrived.
pub const NO_RESPONSE_STATUS: u16 = 0;

/// Whether `c` may stand in a method name: a letter, a digit, or one of
/// ``! # $ % & ' * + - . ^ _ ` | ~``.
pub open spec fn is_method_char(c: char) -> bool {
    ||| 'a' <= c <= 'z'
    ||| 'A' <= c <= 'Z'
    ||| '0' <= c <= '9'
    ||| c == '!'
    ||| c == '#'
    ||| c == '$'
    ||| c == '%'
    ||| c == '&'
    ||| c == '\''
    ||| c == '*'
    ||| c == '+'
    ||| c == '-'
    ||| c == '.'
    ||| c == '^'
    ||| c == '_'
    ||| c == '`'
    ||| c == '|'
    ||| c == '~'
}

/// Whether `s` is a method name: not empty, and made of method characters.
pub open spec fn is_method_token(s: Seq<char>) -> bool {
    &&& s.len() > 0
    &&& forall|i: int| 0 <= i < s.len() ==> is_method_char(#[trigger] s[i])
}

/// The bytes received so far, after `bytes` more have arrived.
pub open spec fn appended(body: Option<Seq<u8>>, bytes: Seq<u8>) -> Seq<u8> {
    match body {
        Some(b) => b + bytes,
        None => bytes,
    }
}

/// A request as a mathematical value: what its operations read and change.
pub struct RequestModel {
    /// The position in the lifecycle.
    pub state: ReadyState,
    /// The method given to `open`.
    pub method: Option<Seq<char>>,
    /// The URL given to `open`.
    pub url: Option<Seq<char>>,
    /// The status of the response.
    pub status: Option<u16>,
    /// The bytes of the response body received so far; `None` until the first
    /// piece arrives.
    pub body: Option<Seq<u8>>,
    /// Whether the request was cancelled.
    pub aborted: bool,
    /// Whether `send` has succeeded.
    pub sent: bool,
    /// The reason the transport gave, if the operation failed.
    pub failure: Option<Seq<char>>,
    /// The operation that the transport began for the request.
    pub operation: Option<OperationHandle>,
    /// The commands that the transport has not been handed yet, oldest first.
    pub outbox: Seq<CommandModel>,
}

impl RequestModel {
    /// A request that nothing has been done with.
    pub open spec fn initial() -> RequestModel {
        RequestModel {
            state: ReadyState::Unsent,
            method: None,
            url: None,
            status: None,
            body: None,
            aborted: false,
            sent: false,
            failure: None,
            operation: None,
            outbox: Seq::empty(),
        }
    }

    /// What holds of every request that the operations below can produce.
    pub open spec fn wf(self) -> bool {
        &&& self.method is Some <==> self.url is Some
        &&& self.method matches Some(m) ==> is_method_token(m)
        &&& self.url matches Some(u) ==> u.len() > 0
        &&& self.state == ReadyState::Unsent ==> self.method is None
        &&& self.state == ReadyState::Opened ==> self.method is Some
        &&& self.sent ==> self.method is Some
        &&& self.state == ReadyState::HeadersReceived || self.state == ReadyState::Loading
            ==> self.sent
        &&& self.status is Some <==> self.state.rank() >= 2
        &&& self.body is Some ==> self.state.rank() >= 3
        &&& self.state == ReadyState::Loading ==> self.body is Some
        &&& self.aborted ==> self.state == ReadyState::Done
        &&& self.failure is Some ==> self.state == ReadyState::Done && !self.aborted
            && self.status == Some(NO_RESPONSE_STATUS)
        &&& self.operation is Some ==> self.sent
    }

    /// What `open` answers: the state is tested first, then the method, then
    /// the URL.
    pub open spec fn open_result(self, method: Seq<char>, url: Seq<char>) -> Result<
        (),
        RequestError,
    > {
        if self.state != ReadyState::Unsent {
            Err(RequestError::AlreadyOpened)
        } else if !is_method_token(method) {
            Err(RequestError::InvalidMethod)
        } else if url.len() == 0 {
            Err(RequestError::InvalidUrl)
        } else {
            Ok(())
        }
    }

    /// The request after `open`: `Opened` with the method and the URL where
    /// `open` succeeds, unchanged where it fails.
    pub open spec fn after_open(self, method: Seq<char>, url: Seq<char>) -> RequestModel {
        if self.open_result(method, url) is Ok {
            RequestModel {
                state: ReadyState::Opened,
                method: Some(method),
                url: Some(url),
                ..self
            }
        } else {
            self
        }
    }

    /// Whether the request stands opened: it is `Opened` and holds the method
    /// and the URL to send. A well-formed request that is `Opened` holds both.
    pub open spec fn is_open(self) -> bool {
        self.state == ReadyState::Opened && self.method is Some && self.url is Some
    }

    /// What `send` answers: a request that was sent before refuses with
    /// `AlreadySent`; one that was not, and does not stand opened, with
    /// `NotOpened`.
    pub open spec fn send_result(self) -> Result<(), RequestError> {
        if self.sent {
            Err(RequestError::AlreadySent)
        } else if !self.is_open() {
            Err(RequestError::NotOpened)
        } else {
            Ok(())
        }
    }

    /// The command that a successful `send` queues for the transport.
    pub open spec fn begin_command(self, body: Option<BodyModel>) -> CommandModel {
        CommandModel::Begin { method: self.method->0, url: self.url->0, body }
    }

    /// The request after `send`: marked as sent, with the command to begin
    /// queued, where `send` succeeds; unchanged where it fails. The state
    /// stays `Opened` until headers arrive.
    pub open spec fn after_send(self, body: Option<BodyModel>) -> RequestModel {
        if self.send_result() is Ok {
            RequestModel { sent: true, outbox: self.outbox.push(self.begin_command(body)), ..self }
        } else {
            self
        }
    }

    /// The status once the request has been ended early: the one already
    /// seen, or `NO_RESPONSE_STATUS` where none was.
    pub open spec fn status_when_ended(self) -> Option<u16> {
        if self.status is Some {
            self.status
        } else {
            Some(NO_RESPONSE_STATUS)
        }
    }

    /// The request after `abort`. One that is `Done` stays as it is. Any other
    /// becomes `Done` and cancelled, keeps a status already seen, shows
    /// `NO_RESPONSE_STATUS` otherwise, keeps the body received so far, and,
    /// where it was sent, queues the command to cancel.
    pub open spec fn after_abort(self) -> RequestModel {
        if self.state == ReadyState::Done {
            self
        } else {
            RequestModel {
                state: ReadyState::Done,
                aborted: true,
                status: self.status_when_ended(),
                outbox: if self.sent {
                    self.outbox.push(CommandModel::Cancel)
                } else {
                    self.outbox
                },
                ..self
            }
        }
    }

    /// Whether the lifecycle lets notification `n` act on the request in its
    /// present state, given that the request is in flight.
    pub open spec fn accepts(self, n: NotificationModel) -> bool {
        match n {
            NotificationModel::HeadersArrived { .. } => self.state == ReadyState::Opened,
            NotificationModel::DataChunk { .. } => self.state == ReadyState::HeadersReceived
                || self.state == ReadyState::Loading,
            NotificationModel::Complete => self.state == ReadyState::HeadersReceived || self.state
                == ReadyState::Loading,
            NotificationModel::Failed { .. } => true,
            NotificationModel::Aborted => true,
        }
    }

    /// What the observer is told when notification `n` has been applied.
    pub open spec fn event_of(n: NotificationModel) -> Event {
        match n {
            NotificationModel::HeadersArrived { .. } => Event::Progress,
            NotificationModel::DataChunk { .. } => Event::Progress,
            NotificationModel::Complete => Event::Load,
            NotificationModel::Failed { .. } => Event::Error,
            NotificationModel::Aborted => Event::Abort,
        }
    }

    /// What applying notification `n` answers. A request that is `Done` drops
    /// it, `Ok(None)`. One that is not in flight, or whose state the
    /// notification does not fit, refuses it with `InvalidTransition`. Any
    /// other applies it and names the event for the observer.
    pub open spec fn notify_result(self, n: NotificationModel) -> Result<
        Option<Event>,
        RequestError,
    > {
        if self.state == ReadyState::Done {
            Ok(None)
        } else if !self.sent || !self.accepts(n) {
            Err(RequestError::InvalidTransition)
        } else {
            Ok(Some(Self::event_of(n)))
        }
    }

    /// The request once notification `n` has acted on it.
    pub open spec fn applied(self, n: NotificationModel) -> RequestModel {
        match n {
            NotificationModel::HeadersArrived { status } => RequestModel {
                state: ReadyState::HeadersReceived,
                status: Some(status),
                ..self
            },
            NotificationModel::DataChunk { bytes } => RequestModel {
                state: ReadyState::Loading,
                body: Some(appended(self.body, bytes)),
                ..self
            },
            NotificationModel::Complete => RequestModel { state: ReadyState::Done, ..self },
            NotificationModel::Failed { reason } => RequestModel {
                state: ReadyState::Done,
                status: Some(NO_RESPONSE_STATUS),
                failure: Some(reason),
                ..self
            },
            NotificationModel::Aborted => RequestModel {
                state: ReadyState::Done,
                aborted: true,
                status: self.status_when_ended(),
                ..self
            },
        }
    }

    /// The request after notification `n` was handed to it: changed where the
    /// notification is applied, unchanged where it is dropped or refused.
    pub open spec fn after_notify(self, n: NotificationModel) -> RequestModel {
        if self.notify_result(n) matches Ok(Some(_)) {
            self.applied(n)
        } else {
            self
        }
    }

    /// Whether the request takes the operation that the transport began for
    /// it: it was sent and has none yet.
    pub open spec fn attach_accepted(self) -> bool {
        self.sent && self.operation is None
    }

    /// The request after the transport's operation was handed to it.
    pub open spec fn after_attach(self, operation: OperationHandle) -> RequestModel {
        if self.attach_accepted() {
            RequestModel { operation: Some(operation), ..self }
        } else {
            self
        }
    }

    /// The request after its queued commands were taken out.
    pub open spec fn after_take_commands(self) -> RequestModel {
        RequestModel { outbox: Seq::empty(), ..self }
    }

    /// The request after the notifications `notes` were handed to it one
    /// after the other, first to last.
    pub open spec fn after_all(self, notes: Seq<NotificationModel>) -> RequestModel
        decreases notes.len(),
    {
        if notes.len() == 0 {
            self
        } else {
            self.after_all(notes.drop_last()).after_notify(notes.last())
        }
    }

    /// What the request answers to each of the notifications `notes`, handed
    /// to it one after the other, first to last.
    pub open spec fn results_of_all(self, notes: Seq<NotificationModel>) -> Seq<
        Result<Option<Event>, RequestError>,
    >
        decreases notes.len(),
    {
        if notes.len() == 0 {
            Seq::empty()
        } else {
            self.results_of_all(notes.drop_last()).push(
                self.after_all(notes.drop_last()).notify_result(notes.last()),
            )
        }
    }
}

} // verus!
