use vstd::prelude::*;

verus! {

/// Names one operation of a transport. The transport picks the value when it
/// begins the operation and ties every later notification to it.
#[derive(Copy, Clone, PartialEq, Eq, Debug, Structural)]
pub struct OperationHandle {
    pub id: u64,
}

/// The body of a request.
#[derive(PartialEq, Eq, Debug)]
pub enum Body {
    Text(String),
    Bytes(Vec<u8>),
}

/// What a `Body` holds, as mathematical sequences.
pub enum BodyModel {
    Text(Seq<char>),
    Bytes(Seq<u8>),
}

impl View for Body {
    type V = BodyModel;

    open spec fn view(&self) -> BodyModel {
        match self {
            Body::Text(s) => BodyModel::Text(s@),
            Body::Bytes(b) => BodyModel::Bytes(b@),
        }
    }
}

/// The view of an optional body.
pub open spec fn body_view(body: Option<Body>) -> Option<BodyModel> {
    match body {
        Some(b) => Some(b@),
        None => None,
    }
}

/// What a request asks of its transport.
#[derive(PartialEq, Eq, Debug)]
pub enum TransportCommand {
    /// Begin the operation that carries the request.
    Begin { method: String, url: String, body: Option<Body> },
    /// Cancel the operation of the request.
    Cancel,
}

/// What a `TransportCommand` holds, as mathematical sequences.
pub enum CommandModel {
    Begin { method: Seq<char>, url: Seq<char>, body: Option<BodyModel> },
    Cancel,
}

impl View for TransportCommand {
    type V = CommandModel;

    open spec fn view(&self) -> CommandModel {
        match self {
            TransportCommand::Begin { method, url, body } => CommandModel::Begin {
                method: method@,
                url: url@,
                body: body_view(*body),
            },
            TransportCommand::Cancel => CommandModel::Cancel,
        }
    }
}

/// The views of a list of commands, in order.
pub open spec fn commands_view(commands: Seq<TransportCommand>) -> Seq<CommandModel> {
    commands.map_values(|c: TransportCommand| c@)
}

/// What a transport reports about an operation.
#[derive(PartialEq, Eq, Debug)]
pub enum Notification {
    /// The response headers have arrived, with the status code.
    HeadersArrived { status: u16 },
    /// A piece of the response body has arrived.
    DataChunk { bytes: Vec<u8> },
    /// The response is complete.
    Complete,
    /// The operation failed.
    Failed { reason: String },
    /// The operation was cancelled.
    Aborted,
}

/// What a `Notification` holds, as mathematical sequences.
pub enum NotificationModel {
    HeadersArrived { status: u16 },
    DataChunk { bytes: Seq<u8> },
    Complete,
    Failed { reason: Seq<char> },
    Aborted,
}

impl View for Notification {
    type V = NotificationModel;

    open spec fn view(&self) -> NotificationModel {
        match self {
            Notification::HeadersArrived { status } => NotificationModel::HeadersArrived {
                status: *status,
            },
            Notification::DataChunk { bytes } => NotificationModel::DataChunk { bytes: bytes@ },
            Notification::Complete => NotificationModel::Complete,
            Notification::Failed { reason } => NotificationModel::Failed { reason: reason@ },
            Notification::Aborted => NotificationModel::Aborted,
        }
    }
}

/// What an observer is told once a notification has changed a request.
#[derive(Copy, Clone, PartialEq, Eq, Debug, Structural)]
pub enum Event {
    /// Headers or a piece of the body arrived.
    Progress,
    /// The response is complete.
    Load,
    /// The operation failed.
    Error,
    /// The operation was cancelled.
    Abort,
}

} // verus!
