use xhr_lifecycle::abort::AbortController;
use xhr_lifecycle::error::RequestError;
use xhr_lifecycle::notifier::EventNotifier;
use xhr_lifecycle::ready_state::ReadyState;
use xhr_lifecycle::request::XMLHttpRequest;
use xhr_lifecycle::response::ResponseBuffer;
use xhr_lifecycle::transport::{Event, Notification, OperationHandle};

fn in_flight(id: u64) -> XMLHttpRequest {
    let mut xhr = XMLHttpRequest::new();
    assert_eq!(xhr.open("GET", "http://x/a"), Ok(()));
    assert_eq!(xhr.send(None), Ok(()));
    assert!(xhr.attach_operation(OperationHandle { id }));
    xhr
}

#[test]
fn abort_controller_counts_only_the_first_request() {
    let mut controller = AbortController::new();
    assert!(!controller.is_aborted());
    assert!(controller.request());
    assert!(controller.is_aborted());
    assert!(!controller.request());
    assert!(!controller.request());
    assert!(controller.is_aborted());
}

#[test]
fn response_buffer_tells_no_body_from_an_empty_one() {
    let mut buffer = ResponseBuffer::new();
    assert!(!buffer.has_body());
    assert_eq!(buffer.bytes(), None);
    assert_eq!(buffer.text(), None);
    buffer.append(vec![]);
    assert!(buffer.has_body());
    assert_eq!(buffer.bytes(), Some(vec![]));
    assert_eq!(buffer.text(), Some(String::new()));
}

#[test]
fn response_buffer_appends_in_order() {
    let mut buffer = ResponseBuffer::new();
    buffer.append(vec![b'a', b'b']);
    buffer.append(vec![b'c']);
    buffer.append(vec![]);
    buffer.append(vec![b'd']);
    assert_eq!(buffer.bytes(), Some(b"abcd".to_vec()));
    assert_eq!(buffer.text(), Some("abcd".to_string()));
}

#[test]
fn response_buffer_decodes_utf8() {
    let mut buffer = ResponseBuffer::new();
    buffer.append("žluťoučký kůň €".as_bytes().to_vec());
    assert_eq!(buffer.text(), Some("žluťoučký kůň €".to_string()));
    let mut broken = ResponseBuffer::new();
    broken.append(vec![0xe2, 0x82]);
    assert_eq!(broken.text(), Some("\u{fffd}".to_string()));
    assert_eq!(broken.bytes(), Some(vec![0xe2, 0x82]));
}

#[test]
fn notifier_starts_empty_and_counts() {
    let mut notifier = EventNotifier::new();
    assert_eq!(notifier.pending_count(), 0);
    notifier.post(OperationHandle { id: 1 }, Notification::Complete);
    notifier.post(OperationHandle { id: 2 }, Notification::Complete);
    assert_eq!(notifier.pending_count(), 2);
}

#[test]
fn notifier_hands_nothing_to_a_request_without_operation() {
    let mut notifier = EventNotifier::new();
    notifier.post(OperationHandle { id: 0 }, Notification::HeadersArrived { status: 200 });
    let mut xhr = XMLHttpRequest::new();
    assert_eq!(notifier.deliver_next(&mut xhr), None);
    assert!(notifier.deliver_pending(&mut xhr).is_empty());
    assert_eq!(notifier.pending_count(), 1);
    assert_eq!(xhr.ready_state(), ReadyState::Unsent);
}

#[test]
fn notifier_delivers_one_at_a_time_in_arrival_order() {
    let mut notifier = EventNotifier::new();
    let mut xhr = in_flight(3);
    let op = OperationHandle { id: 3 };
    notifier.post(op, Notification::HeadersArrived { status: 200 });
    notifier.post(op, Notification::DataChunk { bytes: b"a".to_vec() });
    notifier.post(op, Notification::DataChunk { bytes: b"b".to_vec() });
    notifier.post(op, Notification::Complete);

    assert_eq!(notifier.deliver_next(&mut xhr), Some(Ok(Some(Event::Progress))));
    assert_eq!(xhr.ready_state(), ReadyState::HeadersReceived);
    assert_eq!(notifier.pending_count(), 3);
    assert_eq!(notifier.deliver_next(&mut xhr), Some(Ok(Some(Event::Progress))));
    assert_eq!(xhr.response_text(), Some("a".to_string()));
    assert_eq!(notifier.deliver_next(&mut xhr), Some(Ok(Some(Event::Progress))));
    assert_eq!(xhr.response_text(), Some("ab".to_string()));
    assert_eq!(notifier.deliver_next(&mut xhr), Some(Ok(Some(Event::Load))));
    assert_eq!(xhr.ready_state(), ReadyState::Done);
    assert_eq!(notifier.deliver_next(&mut xhr), None);
    assert_eq!(notifier.pending_count(), 0);
}

#[test]
fn notifier_routes_each_notification_to_its_own_request() {
    let mut notifier = EventNotifier::new();
    let mut first = in_flight(1);
    let mut second = in_flight(2);
    let one = OperationHandle { id: 1 };
    let two = OperationHandle { id: 2 };
    notifier.post(two, Notification::HeadersArrived { status: 404 });
    notifier.post(one, Notification::HeadersArrived { status: 200 });
    notifier.post(two, Notification::Complete);
    notifier.post(one, Notification::DataChunk { bytes: b"one".to_vec() });
    notifier.post(OperationHandle { id: 9 }, Notification::Complete);

    let results = notifier.deliver_pending(&mut first);
    assert_eq!(results, vec![Ok(Some(Event::Progress)), Ok(Some(Event::Progress))]);
    assert_eq!(first.ready_state(), ReadyState::Loading);
    assert_eq!(first.status(), Some(200));
    assert_eq!(first.response_text(), Some("one".to_string()));
    assert_eq!(second.ready_state(), ReadyState::Opened);
    assert_eq!(notifier.pending_count(), 3);

    assert_eq!(notifier.deliver_next(&mut second), Some(Ok(Some(Event::Progress))));
    assert_eq!(second.status(), Some(404));
    assert_eq!(notifier.deliver_next(&mut second), Some(Ok(Some(Event::Load))));
    assert_eq!(second.ready_state(), ReadyState::Done);
    assert_eq!(notifier.deliver_next(&mut second), None);
    assert_eq!(notifier.pending_count(), 1);
    assert_eq!(first.ready_state(), ReadyState::Loading);
}

#[test]
fn notifier_reports_refused_notifications_and_goes_on() {
    let mut notifier = EventNotifier::new();
    let mut xhr = in_flight(5);
    let op = OperationHandle { id: 5 };
    notifier.post(op, Notification::DataChunk { bytes: b"early".to_vec() });
    notifier.post(op, Notification::HeadersArrived { status: 200 });
    notifier.post(op, Notification::HeadersArrived { status: 500 });
    notifier.post(op, Notification::Complete);
    notifier.post(op, Notification::DataChunk { bytes: b"late".to_vec() });
    let results = notifier.deliver_pending(&mut xhr);
    assert_eq!(
        results,
        vec![
            Err(RequestError::InvalidTransition),
            Ok(Some(Event::Progress)),
            Err(RequestError::InvalidTransition),
            Ok(Some(Event::Load)),
            Ok(None),
        ]
    );
    assert_eq!(xhr.ready_state(), ReadyState::Done);
    assert_eq!(xhr.status(), Some(200));
    assert_eq!(xhr.response_bytes(), None);
    assert_eq!(notifier.pending_count(), 0);
}

#[test]
fn notifier_discards_what_was_in_flight_when_the_request_was_aborted() {
    let mut notifier = EventNotifier::new();
    let mut xhr = in_flight(4);
    let op = OperationHandle { id: 4 };
    notifier.post(op, Notification::HeadersArrived { status: 200 });
    assert_eq!(notifier.deliver_next(&mut xhr), Some(Ok(Some(Event::Progress))));
    notifier.post(op, Notification::DataChunk { bytes: b"x".to_vec() });
    notifier.post(op, Notification::Complete);
    notifier.post(op, Notification::Failed { reason: "gone".to_string() });
    xhr.abort();
    let results = notifier.deliver_pending(&mut xhr);
    assert_eq!(results, vec![Ok(None), Ok(None), Ok(None)]);
    assert_eq!(xhr.ready_state(), ReadyState::Done);
    assert_eq!(xhr.status(), Some(200));
    assert_eq!(xhr.response_text(), None);
    assert!(!xhr.has_failed());
    assert_eq!(notifier.pending_count(), 0);
}

#[test]
fn notifier_keeps_the_order_of_what_it_does_not_deliver() {
    let mut notifier = EventNotifier::new();
    let mut mine = in_flight(1);
    let mut other = in_flight(2);
    let one = OperationHandle { id: 1 };
    let two = OperationHandle { id: 2 };
    notifier.post(two, Notification::HeadersArrived { status: 201 });
    notifier.post(one, Notification::HeadersArrived { status: 200 });
    notifier.post(two, Notification::DataChunk { bytes: b"1".to_vec() });
    notifier.post(one, Notification::Complete);
    notifier.post(two, Notification::DataChunk { bytes: b"2".to_vec() });
    assert_eq!(notifier.deliver_pending(&mut mine).len(), 2);
    let results = notifier.deliver_pending(&mut other);
    assert_eq!(
        results,
        vec![Ok(Some(Event::Progress)), Ok(Some(Event::Progress)), Ok(Some(Event::Progress))]
    );
    assert_eq!(other.status(), Some(201));
    assert_eq!(other.response_text(), Some("12".to_string()));
}
