//! What holds of a request over any course of operations.

use crate::error::RequestError;
use crate::model::{appended, RequestModel};
use crate::ready_state::ReadyState;
use crate::response::{text_of, text_of_body};
use crate::transport::{BodyModel, Event, NotificationModel, OperationHandle};
use vstd::prelude::*;
use vstd::utf8::{
    decode_first_scalar, decode_utf8, length_of_first_scalar, pop_first_scalar, valid_utf8,
};

verus! {

/// One operation on a request, with its arguments.
pub enum Step {
    Open { method: Seq<char>, url: Seq<char> },
    Send { body: Option<BodyModel> },
    Abort,
    Notify { notification: NotificationModel },
    Attach { operation: OperationHandle },
    TakeCommands,
}

impl Step {
    /// Whether the step hands the request a piece of the body.
    pub open spec fn is_data_chunk(self) -> bool {
        self matches Step::Notify { notification } && notification is DataChunk
    }

    /// Whether the step ends a request early: by cancelling it, or by the
    /// transport's word that the operation failed or was cancelled.
    pub open spec fn ends_early(self) -> bool {
        ||| self is Abort
        ||| self matches Step::Notify { notification } && (notification is Failed
            || notification is Aborted)
    }

    /// Whether the step hands the request bytes that are not well-formed
    /// UTF-8 by themselves.
    pub open spec fn is_malformed_chunk(self) -> bool {
        self matches Step::Notify { notification: NotificationModel::DataChunk { bytes } }
            && !valid_utf8(bytes)
    }
}

impl RequestModel {
    /// The request after one step.
    pub open spec fn after(self, step: Step) -> RequestModel {
        match step {
            Step::Open { method, url } => self.after_open(method, url),
            Step::Send { body } => self.after_send(body),
            Step::Abort => self.after_abort(),
            Step::Notify { notification } => self.after_notify(notification),
            Step::Attach { operation } => self.after_attach(operation),
            Step::TakeCommands => self.after_take_commands(),
        }
    }

    /// The request after the steps `steps`, first to last.
    pub open spec fn after_steps(self, steps: Seq<Step>) -> RequestModel
        decreases steps.len(),
    {
        if steps.len() == 0 {
            self
        } else {
            self.after_steps(steps.drop_last()).after(steps.last())
        }
    }
}

/// Every step keeps a request well-formed.
pub proof fn lemma_step_keeps_wf(m: RequestModel, step: Step)
    requires
        m.wf(),
    ensures
        m.after(step).wf(),
{
}

/// Every course of steps keeps a request well-formed.
pub proof fn lemma_steps_keep_wf(m: RequestModel, steps: Seq<Step>)
    requires
        m.wf(),
    ensures
        m.after_steps(steps).wf(),
    decreases steps.len(),
{
    if steps.len() > 0 {
        lemma_steps_keep_wf(m, steps.drop_last());
        lemma_step_keeps_wf(m.after_steps(steps.drop_last()), steps.last());
    }
}

/// A step leaves the state where it is, moves it by an ordinary transition,
/// or, where it ends the request early, moves it to `Done`. Either way the
/// state does not go back in lifecycle order.
pub proof fn lemma_step_moves_forward(m: RequestModel, step: Step)
    requires
        m.wf(),
    ensures
        m.state.rank() <= m.after(step).state.rank(),
        ({
            ||| m.after(step).state == m.state
            ||| ReadyState::spec_can_transition(m.state, m.after(step).state)
            ||| (step.ends_early() && ReadyState::spec_can_abort_to(
                m.state,
                m.after(step).state,
            ))
        }),
{
}

/// Over any course of steps the state of a request never goes back in
/// lifecycle order: what it shows after the first `i` steps is at or before
/// what it shows after the first `j`, for `i <= j`.
pub proof fn lemma_ready_state_monotonic(m: RequestModel, steps: Seq<Step>, i: int, j: int)
    requires
        m.wf(),
        0 <= i <= j <= steps.len(),
    ensures
        m.after_steps(steps.take(i)).state.rank() <= m.after_steps(steps.take(j)).state.rank(),
    decreases j - i,
{
    if i < j {
        lemma_ready_state_monotonic(m, steps, i, j - 1);
        assert(steps.take(j).drop_last() =~= steps.take(j - 1));
        lemma_steps_keep_wf(m, steps.take(j - 1));
        lemma_step_moves_forward(m.after_steps(steps.take(j - 1)), steps.take(j).last());
    }
}

/// Once a request was opened, `open` is refused with `AlreadyOpened`,
/// whatever was done with the request in between and whatever the arguments.
pub proof fn lemma_open_twice_refused(
    m: RequestModel,
    method: Seq<char>,
    url: Seq<char>,
    steps: Seq<Step>,
    again_method: Seq<char>,
    again_url: Seq<char>,
)
    requires
        m.wf(),
        m.open_result(method, url) is Ok,
    ensures
        m.after_open(method, url).after_steps(steps).open_result(again_method, again_url) == Err::<
            (),
            RequestError,
        >(RequestError::AlreadyOpened),
{
    let opened = m.after_open(method, url);
    lemma_step_keeps_wf(m, Step::Open { method, url });
    assert(steps.take(0) =~= Seq::empty());
    assert(steps.take(steps.len() as int) =~= steps);
    lemma_ready_state_monotonic(opened, steps, 0, steps.len() as int);
}

/// A request that was never opened refuses `send` with `NotOpened`, and the
/// refused call changes nothing.
pub proof fn lemma_send_before_open_refused(m: RequestModel, body: Option<BodyModel>)
    requires
        m.wf(),
        m.method is None,
    ensures
        m.send_result() == Err::<(), RequestError>(RequestError::NotOpened),
        m.after_send(body) == m,
{
}

/// A request that is `Unsent` was never opened.
pub proof fn lemma_unsent_was_never_opened(m: RequestModel)
    requires
        m.wf(),
        m.state == ReadyState::Unsent,
    ensures
        m.method is None,
        !m.sent,
{
}

/// A request that was sent refuses `send` with `AlreadySent`, whatever was
/// done with it in between.
pub proof fn lemma_send_twice_refused(m: RequestModel, body: Option<BodyModel>, steps: Seq<Step>)
    requires
        m.wf(),
        m.send_result() is Ok,
    ensures
        m.after_send(body).after_steps(steps).send_result() == Err::<(), RequestError>(
            RequestError::AlreadySent,
        ),
    decreases steps.len(),
{
    if steps.len() > 0 {
        lemma_send_twice_refused(m, body, steps.drop_last());
    }
}

/// A request that is `Done` drops every notification: the answer is
/// `Ok(None)` and nothing changes.
pub proof fn lemma_done_drops_notifications(m: RequestModel, n: NotificationModel)
    requires
        m.state == ReadyState::Done,
    ensures
        m.notify_result(n) == Ok::<Option<Event>, RequestError>(None),
        m.after_notify(n) == m,
{
}

/// A request that is `Done` drops every notification of a list: each answer
/// is `Ok(None)` and nothing changes.
pub proof fn lemma_done_drops_all(m: RequestModel, notes: Seq<NotificationModel>)
    requires
        m.state == ReadyState::Done,
    ensures
        m.after_all(notes) == m,
        m.results_of_all(notes).len() == notes.len(),
        forall|i: int|
            0 <= i < notes.len() ==> (#[trigger] m.results_of_all(notes)[i]) == Ok::<
                Option<Event>,
                RequestError,
            >(None),
    decreases notes.len(),
{
    if notes.len() > 0 {
        lemma_done_drops_all(m, notes.drop_last());
    }
}

/// Once a request is `Done`, no course of steps changes its state, its
/// status, its body, the failure it shows, or whether it counts as cancelled.
pub proof fn lemma_done_is_final(m: RequestModel, steps: Seq<Step>)
    requires
        m.state == ReadyState::Done,
    ensures
        m.after_steps(steps).state == ReadyState::Done,
        m.after_steps(steps).status == m.status,
        m.after_steps(steps).body == m.body,
        m.after_steps(steps).failure == m.failure,
        m.after_steps(steps).aborted == m.aborted,
    decreases steps.len(),
{
    if steps.len() > 0 {
        lemma_done_is_final(m, steps.drop_last());
    }
}

/// After `abort` a request is `Done` at once and for good: no course of
/// steps changes its state, its status or its body. The body is what had
/// arrived before the call; the status is the one seen before it, or
/// `NO_RESPONSE_STATUS` where none was.
pub proof fn lemma_abort_is_final(m: RequestModel, steps: Seq<Step>)
    requires
        m.wf(),
    ensures
        m.after_abort().state == ReadyState::Done,
        m.after_abort().body == m.body,
        m.after_abort().status == m.status_when_ended(),
        m.after_abort().after_steps(steps).state == ReadyState::Done,
        m.after_abort().after_steps(steps).status == m.after_abort().status,
        m.after_abort().after_steps(steps).body == m.body,
{
    lemma_done_is_final(m.after_abort(), steps);
}

/// Calling `abort` twice leaves the request exactly as calling it once does.
pub proof fn lemma_abort_idempotent(m: RequestModel)
    ensures
        m.after_abort().after_abort() == m.after_abort(),
{
}

/// A step that is no piece of the body leaves the body as it is; a piece of
/// the body that is applied puts its bytes behind those received before, and
/// from then on there is a body.
pub proof fn lemma_step_grows_body(m: RequestModel, step: Step)
    ensures
        !step.is_data_chunk() ==> m.after(step).body == m.body,
        step matches Step::Notify { notification: NotificationModel::DataChunk { bytes } } ==> {
            if m.notify_result(NotificationModel::DataChunk { bytes }) matches Ok(Some(_)) {
                m.after(step).body == Some(appended(m.body, bytes))
            } else {
                m.after(step).body == m.body
            }
        },
        m.body is Some ==> m.after(step).body is Some && m.body->0.is_prefix_of(
            m.after(step).body->0,
        ),
{
}

/// Over any course of steps the body only grows: once there is one, there is
/// one from then on, and what had arrived stays at its front.
pub proof fn lemma_body_grows(m: RequestModel, steps: Seq<Step>)
    requires
        m.body is Some,
    ensures
        m.after_steps(steps).body is Some,
        m.body->0.is_prefix_of(m.after_steps(steps).body->0),
    decreases steps.len(),
{
    if steps.len() > 0 {
        lemma_body_grows(m, steps.drop_last());
        lemma_step_grows_body(m.after_steps(steps.drop_last()), steps.last());
    }
}

/// A request has no body until a piece of one arrives: from a request
/// without a body, a course of steps that holds no piece of the body ends
/// without a body.
pub proof fn lemma_no_body_before_first_chunk(m: RequestModel, steps: Seq<Step>)
    requires
        m.body is None,
        forall|i: int| 0 <= i < steps.len() ==> !(#[trigger] steps[i]).is_data_chunk(),
    ensures
        m.after_steps(steps).body is None,
    decreases steps.len(),
{
    if steps.len() > 0 {
        let front = steps.drop_last();
        assert forall|i: int| 0 <= i < front.len() implies !(#[trigger] front[i]).is_data_chunk() by {
            assert(front[i] == steps[i]);
        }
        lemma_no_body_before_first_chunk(m, front);
        lemma_step_grows_body(m.after_steps(front), steps.last());
    }
}

/// Well-formed UTF-8 put behind well-formed UTF-8 is well-formed, and reads
/// as the one text followed by the other.
pub proof fn lemma_decode_concat(b1: Seq<u8>, b2: Seq<u8>)
    requires
        valid_utf8(b1),
        valid_utf8(b2),
    ensures
        valid_utf8(b1 + b2),
        decode_utf8(b1 + b2) == decode_utf8(b1) + decode_utf8(b2),
    decreases b1.len(),
{
    vstd::utf8::valid_utf8_concat(b1, b2);
    if b1.len() == 0 {
        assert(b1 + b2 =~= b2);
        assert(decode_utf8(b1) + decode_utf8(b2) =~= decode_utf8(b2));
    } else {
        let rest = pop_first_scalar(b1);
        assert(0 < length_of_first_scalar(b1) <= b1.len());
        assert(pop_first_scalar(b1 + b2) =~= rest + b2);
        assert(decode_first_scalar(b1 + b2) == decode_first_scalar(b1));
        lemma_decode_concat(rest, b2);
        assert(decode_utf8(b1 + b2) =~= decode_utf8(b1) + decode_utf8(b2));
    }
}

/// While the pieces of the body are well-formed UTF-8, the text of the
/// response grows as the body does: a step leaves the text that was there at
/// the front of the text that is there after it.
pub proof fn lemma_step_grows_text(m: RequestModel, step: Step)
    requires
        m.body matches Some(b) && valid_utf8(b),
        !step.is_malformed_chunk(),
    ensures
        m.after(step).body matches Some(b) && valid_utf8(b),
        text_of_body(m.body)->0.is_prefix_of(text_of_body(m.after(step).body)->0),
{
    lemma_step_grows_body(m, step);
    match step {
        Step::Notify { notification: NotificationModel::DataChunk { bytes } } => {
            if m.after(step).body != m.body {
                lemma_decode_concat(m.body->0, bytes);
            }
        },
        _ => {},
    }
}

/// While the pieces of the body are well-formed UTF-8, the text of the
/// response only grows over any course of steps.
pub proof fn lemma_text_grows(m: RequestModel, steps: Seq<Step>)
    requires
        m.body matches Some(b) && valid_utf8(b),
        forall|i: int| 0 <= i < steps.len() ==> !(#[trigger] steps[i]).is_malformed_chunk(),
    ensures
        m.after_steps(steps).body matches Some(b) && valid_utf8(b),
        text_of(m.body->0).is_prefix_of(text_of(m.after_steps(steps).body->0)),
    decreases steps.len(),
{
    if steps.len() > 0 {
        let front = steps.drop_last();
        assert forall|i: int| 0 <= i < front.len() implies !(#[trigger] front[i]).is_malformed_chunk() by {
            assert(front[i] == steps[i]);
        }
        lemma_text_grows(m, front);
        lemma_step_grows_text(m.after_steps(front), steps.last());
    }
}

} // verus!
