use xhr_lifecycle::error::RequestError;
use xhr_lifecycle::ready_state::ReadyState;
use xhr_lifecycle::request::XMLHttpRequest;
use xhr_lifecycle::transport::{Body, Event, Notification, TransportCommand};

fn sent_get() -> XMLHttpRequest {
    let mut xhr = XMLHttpRequest::new();
    assert_eq!(xhr.open("GET", "http://x/a"), Ok(()));
    assert_eq!(xhr.send(None), Ok(()));
    xhr
}

#[test]
fn new_request_is_unsent_and_empty() {
    let xhr = XMLHttpRequest::new();
    assert_eq!(xhr.ready_state(), ReadyState::Unsent);
    assert_eq!(xhr.status(), None);
    assert_eq!(xhr.response_text(), None);
    assert_eq!(xhr.response_bytes(), None);
    assert_eq!(xhr.method(), None);
    assert_eq!(xhr.url(), None);
    assert_eq!(xhr.operation(), None);
    assert!(!xhr.is_aborted());
    assert!(!xhr.is_sent());
    assert!(!xhr.has_failed());
    assert_eq!(xhr.failure_reason(), None);
}

#[test]
fn headers_move_a_sent_request_to_headers_received() {
    let mut xhr = XMLHttpRequest::new();
    assert_eq!(xhr.open("GET", "http://x/a"), Ok(()));
    assert_eq!(xhr.ready_state(), ReadyState::Opened);
    assert_eq!(xhr.send(None), Ok(()));
    assert_eq!(xhr.ready_state(), ReadyState::Opened);
    assert_eq!(xhr.status(), None);
    let outcome = xhr.notify(Notification::HeadersArrived { status: 200 });
    assert_eq!(outcome, Ok(Some(Event::Progress)));
    assert_eq!(xhr.ready_state(), ReadyState::HeadersReceived);
    assert_eq!(xhr.status(), Some(200));
    assert_eq!(xhr.response_text(), None);
}

#[test]
fn chunk_then_complete_gives_the_text() {
    let mut xhr = sent_get();
    assert_eq!(xhr.notify(Notification::HeadersArrived { status: 200 }), Ok(Some(Event::Progress)));
    let chunk = xhr.notify(Notification::DataChunk { bytes: b"hi".to_vec() });
    assert_eq!(chunk, Ok(Some(Event::Progress)));
    assert_eq!(xhr.ready_state(), ReadyState::Loading);
    assert_eq!(xhr.response_text(), Some("hi".to_string()));
    assert_eq!(xhr.notify(Notification::Complete), Ok(Some(Event::Load)));
    assert_eq!(xhr.ready_state(), ReadyState::Done);
    assert_eq!(xhr.response_text(), Some("hi".to_string()));
    assert_eq!(xhr.response_bytes(), Some(b"hi".to_vec()));
    assert_eq!(xhr.status(), Some(200));
    assert!(!xhr.is_aborted());
    assert!(!xhr.has_failed());
}

#[test]
fn abort_before_any_notification_shows_the_sentinel_status() {
    let mut xhr = sent_get();
    xhr.abort();
    assert_eq!(xhr.ready_state(), ReadyState::Done);
    assert_eq!(xhr.status(), Some(0));
    assert_eq!(xhr.response_text(), None);
    assert!(xhr.is_aborted());
}

#[test]
fn abort_after_headers_keeps_the_status() {
    let mut xhr = sent_get();
    assert_eq!(xhr.notify(Notification::HeadersArrived { status: 404 }), Ok(Some(Event::Progress)));
    xhr.abort();
    assert_eq!(xhr.ready_state(), ReadyState::Done);
    assert_eq!(xhr.status(), Some(404));
    assert!(xhr.is_aborted());
}

#[test]
fn open_twice_is_refused() {
    let mut xhr = XMLHttpRequest::new();
    assert_eq!(xhr.open("GET", "http://x/a"), Ok(()));
    assert_eq!(xhr.open("GET", "http://x/a"), Err(RequestError::AlreadyOpened));
    assert_eq!(xhr.open("", ""), Err(RequestError::AlreadyOpened));
    assert_eq!(xhr.method(), Some("GET".to_string()));
    assert_eq!(xhr.url(), Some("http://x/a".to_string()));
    assert_eq!(xhr.ready_state(), ReadyState::Opened);
}

#[test]
fn open_is_refused_in_every_later_state() {
    let mut xhr = sent_get();
    assert_eq!(xhr.open("POST", "http://y"), Err(RequestError::AlreadyOpened));
    assert_eq!(xhr.notify(Notification::HeadersArrived { status: 200 }), Ok(Some(Event::Progress)));
    assert_eq!(xhr.open("POST", "http://y"), Err(RequestError::AlreadyOpened));
    assert_eq!(xhr.notify(Notification::DataChunk { bytes: vec![1, 2] }), Ok(Some(Event::Progress)));
    assert_eq!(xhr.open("POST", "http://y"), Err(RequestError::AlreadyOpened));
    assert_eq!(xhr.notify(Notification::Complete), Ok(Some(Event::Load)));
    assert_eq!(xhr.open("POST", "http://y"), Err(RequestError::AlreadyOpened));
    assert_eq!(xhr.method(), Some("GET".to_string()));
}

#[test]
fn send_before_open_is_refused() {
    let mut xhr = XMLHttpRequest::new();
    assert_eq!(xhr.send(None), Err(RequestError::NotOpened));
    assert_eq!(xhr.send_with_string("x"), Err(RequestError::NotOpened));
    assert_eq!(xhr.send_with_bytes(&[1, 2, 3]), Err(RequestError::NotOpened));
    assert_eq!(xhr.ready_state(), ReadyState::Unsent);
    assert!(!xhr.is_sent());
    assert!(xhr.take_commands().is_empty());
}

#[test]
fn send_twice_is_refused() {
    let mut xhr = sent_get();
    assert_eq!(xhr.send(None), Err(RequestError::AlreadySent));
    assert_eq!(xhr.notify(Notification::HeadersArrived { status: 200 }), Ok(Some(Event::Progress)));
    assert_eq!(xhr.send(None), Err(RequestError::AlreadySent));
    let commands = xhr.take_commands();
    assert_eq!(commands.len(), 1);
}

#[test]
fn send_after_abort_of_an_opened_request_is_refused_as_not_opened() {
    let mut xhr = XMLHttpRequest::new();
    assert_eq!(xhr.open("GET", "http://x/a"), Ok(()));
    xhr.abort();
    assert_eq!(xhr.send(None), Err(RequestError::NotOpened));
}

#[test]
fn send_queues_the_command_to_begin() {
    let mut xhr = XMLHttpRequest::new();
    assert_eq!(xhr.open("POST", "http://x/form"), Ok(()));
    assert_eq!(xhr.send(Some(Body::Text("a=1".to_string()))), Ok(()));
    assert!(xhr.is_sent());
    let commands = xhr.take_commands();
    assert_eq!(
        commands,
        vec![TransportCommand::Begin {
            method: "POST".to_string(),
            url: "http://x/form".to_string(),
            body: Some(Body::Text("a=1".to_string())),
        }]
    );
    assert!(xhr.take_commands().is_empty());
}

#[test]
fn send_without_body_queues_begin_without_body() {
    let mut xhr = sent_get();
    assert_eq!(
        xhr.take_commands(),
        vec![TransportCommand::Begin {
            method: "GET".to_string(),
            url: "http://x/a".to_string(),
            body: None,
        }]
    );
}

#[test]
fn send_with_string_carries_the_text() {
    let mut xhr = XMLHttpRequest::new();
    assert_eq!(xhr.open("PUT", "/doc"), Ok(()));
    assert_eq!(xhr.send_with_string("héllo"), Ok(()));
    assert_eq!(
        xhr.take_commands(),
        vec![TransportCommand::Begin {
            method: "PUT".to_string(),
            url: "/doc".to_string(),
            body: Some(Body::Text("héllo".to_string())),
        }]
    );
}

#[test]
fn send_with_bytes_carries_the_bytes() {
    let mut xhr = XMLHttpRequest::new();
    assert_eq!(xhr.open("PUT", "/blob"), Ok(()));
    assert_eq!(xhr.send_with_bytes(&[0, 255, 7]), Ok(()));
    assert_eq!(
        xhr.take_commands(),
        vec![TransportCommand::Begin {
            method: "PUT".to_string(),
            url: "/blob".to_string(),
            body: Some(Body::Bytes(vec![0, 255, 7])),
        }]
    );
}
