use crate::error::RequestError;
use crate::request::XMLHttpRequest;
use crate::transport::{Event, Notification, NotificationModel, OperationHandle};
use vstd::prelude::*;

verus! {

/// A notification together with the operation that it is about.
#[derive(PartialEq, Eq, Debug)]
pub struct Envelope {
    pub operation: OperationHandle,
    pub notification: Notification,
}

/// What an `Envelope` holds, as a mathematical value.
pub struct EnvelopeModel {
    pub operation: OperationHandle,
    pub notification: NotificationModel,
}

impl View for Envelope {
    type V = EnvelopeModel;

    open spec fn view(&self) -> EnvelopeModel {
        EnvelopeModel { operation: self.operation, notification: self.notification@ }
    }
}

/// The views of a list of envelopes, in order.
pub open spec fn envelopes_view(envelopes: Seq<Envelope>) -> Seq<EnvelopeModel> {
    envelopes.map_values(|e: Envelope| e@)
}

/// The notifications in `queue` that are about `operation`, in the order in
/// which they stand there.
pub open spec fn addressed_to(queue: Seq<EnvelopeModel>, operation: OperationHandle) -> Seq<
    NotificationModel,
>
    decreases queue.len(),
{
    if queue.len() == 0 {
        Seq::empty()
    } else if queue.last().operation == operation {
        addressed_to(queue.drop_last(), operation).push(queue.last().notification)
    } else {
        addressed_to(queue.drop_last(), operation)
    }
}

/// The envelopes in `queue` that are about another operation than
/// `operation`, in the order in which they stand there.
pub open spec fn addressed_elsewhere(
    queue: Seq<EnvelopeModel>,
    operation: OperationHandle,
) -> Seq<EnvelopeModel>
    decreases queue.len(),
{
    if queue.len() == 0 {
        Seq::empty()
    } else if queue.last().operation == operation {
        addressed_elsewhere(queue.drop_last(), operation)
    } else {
        addressed_elsewhere(queue.drop_last(), operation).push(queue.last())
    }
}

/// The place in `queue` of the first envelope that is about `operation`.
pub open spec fn next_for(queue: Seq<EnvelopeModel>, operation: OperationHandle) -> Option<int>
    decreases queue.len(),
{
    if queue.len() == 0 {
        None
    } else if next_for(queue.drop_last(), operation) is Some {
        next_for(queue.drop_last(), operation)
    } else if queue.last().operation == operation {
        Some(queue.len() - 1)
    } else {
        None
    }
}

/// The first envelope about `operation` is found in every longer queue at the
/// place where a beginning of that queue has it.
pub proof fn lemma_next_for_prefix(queue: Seq<EnvelopeModel>, operation: OperationHandle, k: int)
    requires
        0 <= k <= queue.len(),
        next_for(queue.take(k), operation) is Some,
    ensures
        next_for(queue, operation) == next_for(queue.take(k), operation),
    decreases queue.len() - k,
{
    if k < queue.len() {
        assert(queue.take(k + 1).drop_last() =~= queue.take(k));
        lemma_next_for_prefix(queue, operation, k + 1);
    } else {
        assert(queue.take(k) =~= queue);
    }
}

/// Where `next_for` finds an envelope, that envelope is in the queue, is
/// about `operation`, and no envelope before it is.
pub proof fn lemma_next_for_is_first(queue: Seq<EnvelopeModel>, operation: OperationHandle)
    ensures
        next_for(queue, operation) matches Some(i) ==> {
            &&& 0 <= i < queue.len()
            &&& queue[i].operation == operation
            &&& forall|j: int| 0 <= j < i ==> (#[trigger] queue[j]).operation != operation
        },
        next_for(queue, operation) is None ==> forall|j: int|
            0 <= j < queue.len() ==> (#[trigger] queue[j]).operation != operation,
    decreases queue.len(),
{
    if queue.len() > 0 {
        let front = queue.drop_last();
        lemma_next_for_is_first(front, operation);
        assert forall|j: int| 0 <= j < front.len() implies #[trigger] queue[j] == front[j] by {}
        if next_for(front, operation) is None {
            assert forall|j: int| 0 <= j < front.len() implies (#[trigger] queue[j]).operation
                != operation by {
                assert(queue[j] == front[j]);
            }
        } else {
            let i = next_for(front, operation)->0;
            assert(queue[i] == front[i]);
            assert forall|j: int| 0 <= j < i implies (#[trigger] queue[j]).operation
                != operation by {
                assert(queue[j] == front[j]);
            }
        }
    }
}

/// The place in `queue` of the first envelope for a request whose operation
/// is `operation`: none where the request has no operation.
pub open spec fn next_envelope(
    queue: Seq<EnvelopeModel>,
    operation: Option<OperationHandle>,
) -> Option<int> {
    match operation {
        Some(op) => next_for(queue, op),
        None => None,
    }
}

/// Holds what transports have reported until the requests concerned take it,
/// and hands each request the notifications about its own operation, in the
/// order in which they came in.
#[derive(Debug)]
pub struct EventNotifier {
    pending: Vec<Envelope>,
}

impl View for EventNotifier {
    type V = Seq<EnvelopeModel>;

    /// The envelopes that wait, oldest first.
    closed spec fn view(&self) -> Seq<EnvelopeModel> {
        envelopes_view(self.pending@)
    }
}

impl EventNotifier {
    /// A notifier in which nothing waits.
    pub fn new() -> (n: EventNotifier)
        ensures
            n@ == Seq::<EnvelopeModel>::empty(),
    {
        let n = EventNotifier { pending: Vec::new() };
        assert(envelopes_view(n.pending@) =~= Seq::empty());
        n
    }

    /// The number of envelopes that wait.
    pub fn pending_count(&self) -> (n: usize)
        ensures
            n == self@.len(),
    {
        self.pending.len()
    }

    /// Takes in a notification about `operation`, behind those that wait.
    pub fn post(&mut self, operation: OperationHandle, notification: Notification)
        ensures
            final(self)@ == old(self)@.push(
                EnvelopeModel { operation, notification: notification@ },
            ),
    {
        let envelope = Envelope { operation, notification };
        proof {
            self.pending@.lemma_push_map_commute(|e: Envelope| e@, envelope);
        }
        self.pending.push(envelope);
    }

    /// Hands `request` the oldest waiting notification about its operation
    /// and takes that notification out of the queue; the others keep their
    /// order. Answers with what the request answered, or with `None`, and no
    /// change, where nothing waits for the request.
    pub fn deliver_next(&mut self, request: &mut XMLHttpRequest) -> (r: Option<
        Result<Option<Event>, RequestError>,
    >)
        ensures
            old(request)@.wf() ==> final(request)@.wf(),
            match next_envelope(old(self)@, old(request)@.operation) {
                Some(i) => {
                    &&& 0 <= i < old(self)@.len()
                    &&& r == Some(old(request)@.notify_result(old(self)@[i].notification))
                    &&& final(request)@ == old(request)@.after_notify(old(self)@[i].notification)
                    &&& final(self)@ == old(self)@.remove(i)
                },
                None => {
                    &&& r is None
                    &&& final(request)@ == old(request)@
                    &&& final(self)@ == old(self)@
                },
            },
    {
        let operation = match request.operation() {
            Some(op) => op,
            None => {
                return None;
            },
        };
        let n = self.pending.len();
        let mut i: usize = 0;
        while i < n
            invariant
                i <= n,
                n == self.pending@.len(),
                self.pending@ == old(self).pending@,
                request@ == old(request)@,
                request@.operation == Some(operation),
                next_for(self@.take(i as int), operation) is None,
            decreases n - i,
        {
            proof {
                assert(self@.take(i + 1).drop_last() =~= self@.take(i as int));
            }
            if self.pending[i].operation == operation {
                proof {
                    lemma_next_for_prefix(self@, operation, i + 1);
                    assert(envelopes_view(self.pending@.remove(i as int)) =~= self@.remove(
                        i as int,
                    ));
                }
                let envelope = self.pending.remove(i);
                let outcome = request.notify(envelope.notification);
                return Some(outcome);
            }
            i += 1;
        }
        proof {
            assert(self@.take(n as int) =~= self@);
        }
        None
    }

    /// Hands `request` every waiting notification about its operation, oldest
    /// first, and takes them out of the queue; the others keep their order.
    /// Answers with what the request answered to each, in that order. A
    /// request without an operation is handed nothing.
    pub fn deliver_pending(&mut self, request: &mut XMLHttpRequest) -> (results: Vec<
        Result<Option<Event>, RequestError>,
    >)
        ensures
            old(request)@.wf() ==> final(request)@.wf(),
            match old(request)@.operation {
                Some(op) => {
                    &&& final(request)@ == old(request)@.after_all(addressed_to(old(self)@, op))
                    &&& results@ == old(request)@.results_of_all(addressed_to(old(self)@, op))
                    &&& final(self)@ == addressed_elsewhere(old(self)@, op)
                },
                None => {
                    &&& results@.len() == 0
                    &&& final(request)@ == old(request)@
                    &&& final(self)@ == old(self)@
                },
            },
    {
        let mut results: Vec<Result<Option<Event>, RequestError>> = Vec::new();
        let operation = match request.operation() {
            Some(op) => op,
            None => {
                return results;
            },
        };
        let mut queue: Vec<Envelope> = Vec::new();
        std::mem::swap(&mut self.pending, &mut queue);
        let ghost all = envelopes_view(queue@);
        let ghost start = request@;
        assert(envelopes_view(self.pending@) =~= Seq::empty());
        assert(all.take(0) =~= Seq::empty());
        for envelope in it: queue
            invariant
                envelopes_view(it.seq()) == all,
                all == old(self)@,
                start == old(request)@,
                start.operation == Some(operation),
                start.wf() ==> request@.wf(),
                request@ == start.after_all(addressed_to(all.take(it.index() as int), operation)),
                results@ == start.results_of_all(
                    addressed_to(all.take(it.index() as int), operation),
                ),
                self@ == addressed_elsewhere(all.take(it.index() as int), operation),
        {
            proof {
                let k = it.index() as int;
                assert(all.take(k + 1).drop_last() =~= all.take(k));
                assert(all.take(k + 1).last() == envelope@);
                let notes = addressed_to(all.take(k + 1), operation);
                if envelope.operation == operation {
                    assert(notes.drop_last() =~= addressed_to(all.take(k), operation));
                    assert(notes.last() == envelope.notification@);
                }
                self.pending@.lemma_push_map_commute(|e: Envelope| e@, envelope);
            }
            if envelope.operation == operation {
                let outcome = request.notify(envelope.notification);
                results.push(outcome);
            } else {
                self.pending.push(envelope);
            }
        }
        proof {
            assert(all.take(all.len() as int) =~= all);
        }
        results
    }
}

} // verus!
