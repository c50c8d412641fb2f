use crate::abort::AbortController;
use crate::error::RequestError;
use crate::model::{is_method_char, is_method_token, RequestModel, NO_RESPONSE_STATUS};
use crate::ready_state::ReadyState;
use crate::response::{bytes_view, text_of_body, text_view, ResponseBuffer};
use crate::transport::{
    body_view, commands_view, Body, BodyModel, Event, Notification, OperationHandle,
    TransportCommand,
};
use vstd::prelude::*;
use vstd::slice::slice_to_vec;

verus! {

/// One request and its progress. It is opened, sent, and then moved along by
/// what the transport reports, until it is `Done`; `abort` ends it at once.
///
/// The request does no transport work itself. What it wants of the transport
/// it queues as commands, which the caller takes out with `take_commands`
/// and carries out; what the transport reports comes back through `notify`.
#[derive(Debug)]
pub struct XMLHttpRequest {
    state: ReadyState,
    method: Option<String>,
    url: Option<String>,
    status: Option<u16>,
    response: ResponseBuffer,
    abort: AbortController,
    sent: bool,
    failure: Option<String>,
    operation: Option<OperationHandle>,
    outbox: Vec<TransportCommand>,
}

impl View for XMLHttpRequest {
    type V = RequestModel;

    closed spec fn view(&self) -> RequestModel {
        RequestModel {
            state: self.state,
            method: text_view(self.method),
            url: text_view(self.url),
            status: self.status,
            body: self.response@,
            aborted: self.abort@,
            sent: self.sent,
            failure: text_view(self.failure),
            operation: self.operation,
            outbox: commands_view(self.outbox@),
        }
    }
}

/// Decides whether a character may stand in a method name.
pub fn is_method_character(c: char) -> (r: bool)
    ensures
        r == is_method_char(c),
{
    (c >= 'a' && c <= 'z') || (c >= 'A' && c <= 'Z') || (c >= '0' && c <= '9') || c == '!' || c
        == '#' || c == '$' || c == '%' || c == '&' || c == '\'' || c == '*' || c == '+' || c == '-'
        || c == '.' || c == '^' || c == '_' || c == '`' || c == '|' || c == '~'
}

/// Decides whether a string is a method name.
pub fn is_method(method: &str) -> (r: bool)
    ensures
        r == is_method_token(method@),
{
    if method.is_empty() {
        return false;
    }
    let mut all = true;
    for c in it: method.chars()
        invariant
            it.seq() == method@,
            all == forall|j: int| 0 <= j < it.index() ==> is_method_char(#[trigger] method@[j]),
    {
        if !is_method_character(c) {
            all = false;
        }
    }
    all
}

impl XMLHttpRequest {
    /// A request in state `Unsent`.
    pub fn new() -> (r: XMLHttpRequest)
        ensures
            r@ == RequestModel::initial(),
            r@.wf(),
    {
        let r = XMLHttpRequest {
            state: ReadyState::Unsent,
            method: None,
            url: None,
            status: None,
            response: ResponseBuffer::new(),
            abort: AbortController::new(),
            sent: false,
            failure: None,
            operation: None,
            outbox: Vec::new(),
        };
        assert(commands_view(r.outbox@) =~= Seq::empty());
        r
    }

    /// The position of the request in its lifecycle.
    pub fn ready_state(&self) -> (s: ReadyState)
        ensures
            s == self@.state,
    {
        self.state
    }

    /// The status of the response: `None` until headers arrive, then the
    /// status that came with them. A request that ended before any headers
    /// arrived, or whose operation failed, shows `NO_RESPONSE_STATUS`.
    pub fn status(&self) -> (s: Option<u16>)
        ensures
            s == self@.status,
    {
        self.status
    }

    /// Opens the request: checks the method and the URL, keeps them, and
    /// moves the request to `Opened`. A request that is not `Unsent` refuses
    /// with `AlreadyOpened`; a method that is no method name with
    /// `InvalidMethod`; an empty URL with `InvalidUrl`. A refused call
    /// changes nothing.
    pub fn open(&mut self, method: &str, url: &str) -> (r: Result<(), RequestError>)
        ensures
            r == old(self)@.open_result(method@, url@),
            final(self)@ == old(self)@.after_open(method@, url@),
            old(self)@.wf() ==> final(self)@.wf(),
    {
        if self.state != ReadyState::Unsent {
            return Err(RequestError::AlreadyOpened);
        }
        if !is_method(method) {
            return Err(RequestError::InvalidMethod);
        }
        if url.is_empty() {
            return Err(RequestError::InvalidUrl);
        }
        self.method = Some(method.to_owned());
        self.url = Some(url.to_owned());
        self.state = ReadyState::Opened;
        Ok(())
    }

    /// Sends the request: marks it as sent and queues, for the transport, the
    /// command to begin, with the method and the URL of `open` and the body
    /// given here. The state stays `Opened` until headers arrive. A request
    /// that was sent before refuses with `AlreadySent`; one that was not,
    /// and is not `Opened`, with `NotOpened`. A refused call changes nothing.
    pub fn send(&mut self, body: Option<Body>) -> (r: Result<(), RequestError>)
        ensures
            r == old(self)@.send_result(),
            final(self)@ == old(self)@.after_send(body_view(body)),
            old(self)@.wf() ==> final(self)@.wf(),
    {
        if self.sent {
            return Err(RequestError::AlreadySent);
        }
        if self.state != ReadyState::Opened {
            return Err(RequestError::NotOpened);
        }
        let command = match (&self.method, &self.url) {
            (Some(method), Some(url)) => TransportCommand::Begin {
                method: method.clone(),
                url: url.clone(),
                body,
            },
            _ => {
                return Err(RequestError::NotOpened);
            },
        };
        proof {
            self.outbox@.lemma_push_map_commute(|c: TransportCommand| c@, command);
        }
        self.outbox.push(command);
        self.sent = true;
        Ok(())
    }

    /// Sends the request with a body of text. See `send`.
    pub fn send_with_string(&mut self, body: &str) -> (r: Result<(), RequestError>)
        ensures
            r == old(self)@.send_result(),
            final(self)@ == old(self)@.after_send(Some(BodyModel::Text(body@))),
            old(self)@.wf() ==> final(self)@.wf(),
    {
        self.send(Some(Body::Text(body.to_owned())))
    }

    /// Sends the request with a body of bytes. See `send`.
    pub fn send_with_bytes(&mut self, body: &[u8]) -> (r: Result<(), RequestError>)
        ensures
            r == old(self)@.send_result(),
            final(self)@ == old(self)@.after_send(Some(BodyModel::Bytes(body@))),
            old(self)@.wf() ==> final(self)@.wf(),
    {
        self.send(Some(Body::Bytes(slice_to_vec(body))))
    }

    /// Ends the request at once. A request that is `Done` stays as it is.
    /// Any other becomes `Done` and cancelled; it keeps a status already
    /// seen and shows `NO_RESPONSE_STATUS` otherwise; the body received so
    /// far stays; and where the request was sent, the command to cancel is
    /// queued for the transport.
    pub fn abort(&mut self)
        ensures
            final(self)@ == old(self)@.after_abort(),
            old(self)@.wf() ==> final(self)@.wf(),
    {
        if self.state == ReadyState::Done {
            return ;
        }
        self.abort.request();
        self.state = ReadyState::Done;
        if self.status.is_none() {
            self.status = Some(NO_RESPONSE_STATUS);
        }
        if self.sent {
            proof {
                self.outbox@.lemma_push_map_commute(
                    |c: TransportCommand| c@,
                    TransportCommand::Cancel,
                );
            }
            self.outbox.push(TransportCommand::Cancel);
        }
    }

    /// Hands the request what the transport reported. A request that is
    /// `Done` drops the notification and answers `Ok(None)`. One that was
    /// never sent, or whose state the notification does not fit, refuses it
    /// with `InvalidTransition` and stays as it is. Any other applies it and
    /// answers with the event for the observer.
    pub fn notify(&mut self, notification: Notification) -> (r: Result<
        Option<Event>,
        RequestError,
    >)
        ensures
            r == old(self)@.notify_result(notification@),
            final(self)@ == old(self)@.after_notify(notification@),
            old(self)@.wf() ==> final(self)@.wf(),
    {
        if self.state == ReadyState::Done {
            return Ok(None);
        }
        if !self.sent {
            return Err(RequestError::InvalidTransition);
        }
        match notification {
            Notification::HeadersArrived { status } => {
                if self.state != ReadyState::Opened {
                    return Err(RequestError::InvalidTransition);
                }
                self.state = ReadyState::HeadersReceived;
                self.status = Some(status);
                Ok(Some(Event::Progress))
            },
            Notification::DataChunk { bytes } => {
                if self.state != ReadyState::HeadersReceived && self.state != ReadyState::Loading {
                    return Err(RequestError::InvalidTransition);
                }
                self.state = ReadyState::Loading;
                self.response.append(bytes);
                Ok(Some(Event::Progress))
            },
            Notification::Complete => {
                if self.state != ReadyState::HeadersReceived && self.state != ReadyState::Loading {
                    return Err(RequestError::InvalidTransition);
                }
                self.state = ReadyState::Done;
                Ok(Some(Event::Load))
            },
            Notification::Failed { reason } => {
                self.state = ReadyState::Done;
                self.status = Some(NO_RESPONSE_STATUS);
                self.failure = Some(reason);
                Ok(Some(Event::Error))
            },
            Notification::Aborted => {
                self.abort.request();
                self.state = ReadyState::Done;
                if self.status.is_none() {
                    self.status = Some(NO_RESPONSE_STATUS);
                }
                Ok(Some(Event::Abort))
            },
        }
    }

    /// Records the operation that the transport began for the request, and
    /// tells whether it was recorded: it is where the request was sent and
    /// has no operation yet.
    pub fn attach_operation(&mut self, operation: OperationHandle) -> (accepted: bool)
        ensures
            accepted == old(self)@.attach_accepted(),
            final(self)@ == old(self)@.after_attach(operation),
            old(self)@.wf() ==> final(self)@.wf(),
    {
        if self.sent && self.operation.is_none() {
            self.operation = Some(operation);
            true
        } else {
            false
        }
    }

    /// The operation that the transport began for the request.
    pub fn operation(&self) -> (o: Option<OperationHandle>)
        ensures
            o == self@.operation,
    {
        self.operation
    }

    /// Takes out the commands queued for the transport, oldest first, and
    /// leaves the queue empty.
    pub fn take_commands(&mut self) -> (commands: Vec<TransportCommand>)
        ensures
            commands_view(commands@) == old(self)@.outbox,
            final(self)@ == old(self)@.after_take_commands(),
            old(self)@.wf() ==> final(self)@.wf(),
    {
        let mut commands: Vec<TransportCommand> = Vec::new();
        std::mem::swap(&mut self.outbox, &mut commands);
        assert(commands_view(self.outbox@) =~= Seq::empty());
        commands
    }

    /// Gives the request up. Answers with the commands that the transport is
    /// still owed, oldest first: those queued before, and behind them the
    /// command to cancel where the request is in flight.
    pub fn dispose(self) -> (commands: Vec<TransportCommand>)
        ensures
            commands_view(commands@) == self@.after_abort().outbox,
    {
        let mut request = self;
        request.abort();
        request.take_commands()
    }

    /// The body received so far, read as text: `None` until the first piece
    /// arrives, then `Some`, also of an empty body.
    pub fn response_text(&self) -> (r: Option<String>)
        ensures
            text_view(r) == text_of_body(self@.body),
    {
        self.response.text()
    }

    /// The bytes of the body received so far: `None` until the first piece
    /// arrives, then `Some`, also of an empty body.
    pub fn response_bytes(&self) -> (r: Option<Vec<u8>>)
        ensures
            bytes_view(r) == self@.body,
    {
        self.response.bytes()
    }

    /// Whether the request was cancelled.
    pub fn is_aborted(&self) -> (b: bool)
        ensures
            b == self@.aborted,
    {
        self.abort.is_aborted()
    }

    /// Whether `send` has succeeded on the request.
    pub fn is_sent(&self) -> (b: bool)
        ensures
            b == self@.sent,
    {
        self.sent
    }

    /// Whether the operation of the request failed.
    pub fn has_failed(&self) -> (b: bool)
        ensures
            b == (self@.failure is Some),
    {
        self.failure.is_some()
    }

    /// The reason that the transport gave for the failure of the operation.
    pub fn failure_reason(&self) -> (r: Option<String>)
        ensures
            text_view(r) == self@.failure,
    {
        match &self.failure {
            Some(reason) => Some(reason.clone()),
            None => None,
        }
    }

    /// The method that the request was opened with.
    pub fn method(&self) -> (r: Option<String>)
        ensures
            text_view(r) == self@.method,
    {
        match &self.method {
            Some(m) => Some(m.clone()),
            None => None,
        }
    }

    /// The URL that the request was opened with.
    pub fn url(&self) -> (r: Option<String>)
        ensures
            text_view(r) == self@.url,
    {
        match &self.url {
            Some(u) => Some(u.clone()),
            None => None,
        }
    }
}

} // verus!
