//! What the stream and sink adapters do, frame by frame, over any run of calls.

use crate::buffers::{bytes_content, message_content, staged_content};
use crate::polling::{
    flush_step, offer_step, queue_content, queue_flush_step, stream_item, FlushAction, FlushEvent,
    Frames, Polled, QueueState, SinkError, SinkState,
};
use bytes::Bytes;
use vstd::prelude::*;

verus! {

/// The contents of all frames of a message, in order.
pub open spec fn frames_of(message: Seq<Bytes>) -> Frames {
    Seq::new(message.len(), |i: int| bytes_content(message[i]))
}

/// The content of a message is that of each of its frames, in order.
pub proof fn law_content_is_frame_by_frame(message: Vec<Bytes>)
    ensures
        message_content(message@) == frames_of(message@),
        message_content(message@).len() == message@.len(),
        forall|i: int|
            0 <= i < message@.len() ==> #[trigger] message_content(message@)[i] == bytes_content(
                message@[i],
            ),
        staged_content(Some(message)) == Some(frames_of(message@)),
        staged_content(None) is None,
{
    assert(message_content(message@) =~= frames_of(message@));
}

/// The content of a queue is that of each of its messages, in order.
pub proof fn law_queue_content_is_message_by_message(queue: Seq<Vec<Bytes>>)
    ensures
        queue_content(queue).len() == queue.len(),
        forall|i: int|
            0 <= i < queue.len() ==> #[trigger] queue_content(queue)[i] == frames_of(queue[i]@),
{
    assert forall|i: int| 0 <= i < queue.len() implies #[trigger] queue_content(queue)[i]
        == frames_of(queue[i]@) by {
        law_content_is_frame_by_frame(queue[i]);
    }
}

/// A stream yields each message and each error that its socket received, ends where the
/// socket has no more, and is pending where the socket is.
pub proof fn law_streams_yield_what_is_received<E>(
    received: Polled<Result<Option<Vec<Bytes>>, E>>,
)
    ensures
        stream_item(received) is Pending <==> received is Pending,
        forall|message: Vec<Bytes>|
            received == Polled::Ready(Ok::<_, E>(Some(message))) <==> #[trigger] stream_item(
                received,
            ) == Polled::Ready(Some(Ok::<Vec<Bytes>, E>(message))),
        received == Polled::Ready(Ok::<Option<Vec<Bytes>>, E>(None)) <==> stream_item(received)
            == Polled::Ready(None::<Result<Vec<Bytes>, E>>),
        forall|error: E|
            received == Polled::Ready(Err::<Option<Vec<Bytes>>, E>(error))
                <==> #[trigger] stream_item(received) == Polled::Ready(
                Some(Err::<Vec<Bytes>, E>(error)),
            ),
{
}

/// An empty slot takes the message that is offered; an occupied one keeps what it holds and
/// refuses.
pub proof fn law_offers<S>(
    before: SinkState<S>,
    item: Frames,
    after: SinkState<S>,
    result: Result<(), SinkError>,
)
    requires
        offer_step(before, item, after, result),
    ensures
        after.socket == before.socket,
        before.pending is None ==> result is Ok && after.pending == Some(item),
        before.pending is Some ==> result == Err::<(), SinkError>(SinkError::WouldBlock)
            && after.pending == before.pending,
{
}

/// A flush hands over the staged message, all frames of it, and then flushes the socket. A
/// message that the socket did not take stays, and the outcome is passed on.
pub proof fn law_flushes<S, E>(
    before: SinkState<S>,
    event: FlushEvent<E>,
    after: SinkState<S>,
    action: FlushAction<E>,
)
    requires
        flush_step(before, event, after, action),
    ensures
        after.socket == before.socket,
        event is Start ==> after.pending == before.pending,
        event is Start && before.pending is None ==> action is FlushSocket,
        event is Start && before.pending is Some ==> (action matches FlushAction::Send(message)
            && frames_of(message@) == before.pending->Some_0),
        event matches FlushEvent::Sent(Polled::Ready(Ok(_))) ==> after.pending is None && action is
            FlushSocket,
        event matches FlushEvent::Sent(Polled::Pending) ==> after.pending == before.pending && (
        action matches FlushAction::Return(outcome) && outcome is Pending),
        event matches FlushEvent::Sent(Polled::Ready(Err(error))) ==> after.pending
            == before.pending && (action matches FlushAction::Return(Polled::Ready(Err(passed)))
            && passed == error),
{
    if action is Send {
        law_content_is_frame_by_frame(action->Send_0);
    }
}

/// A call on a sink adapter, with what it returned.
pub enum SinkCall<E> {
    /// `start_send`.
    StartSend {
        /// The message.
        item: Vec<Bytes>,
        /// The result.
        result: Result<(), SinkError>,
    },
    /// `poll_flush` or `poll_close`.
    PollFlush {
        /// What it was told.
        event: FlushEvent<E>,
        /// What it asked for.
        action: FlushAction<E>,
    },
}

impl<E> SinkCall<E> {
    /// The call accepted a message.
    pub open spec fn accepts(self) -> bool {
        self matches SinkCall::StartSend { result, .. } && result is Ok
    }

    /// The call asked for a message to be handed to the socket.
    pub open spec fn hands(self) -> bool {
        self matches SinkCall::PollFlush { action, .. } && action is Send
    }

    /// The frames that the call asked to be handed to the socket.
    pub open spec fn handed(self) -> Frames {
        frames_of(self->action->Send_0@)
    }

    /// The call reports on a message that was handed to the socket.
    pub open spec fn reports(self) -> bool {
        self matches SinkCall::PollFlush { event, .. } && event is Sent
    }

    /// The call reports that the socket took the message that it was handed.
    pub open spec fn reports_taken(self) -> bool {
        self matches SinkCall::PollFlush { event: FlushEvent::Sent(Polled::Ready(Ok(_))), .. }
    }
}

/// Each report follows on the call that asked for the message to be handed over.
pub open spec fn reports_follow<E>(calls: Seq<SinkCall<E>>) -> bool {
    forall|i: int|
        0 <= i < calls.len() && (#[trigger] calls[i]).reports() ==> i > 0 && calls[i - 1].hands()
}

/// The messages that the first `n` calls accepted, frame by frame.
pub open spec fn accepted_by<E>(calls: Seq<SinkCall<E>>, n: int) -> Seq<Frames>
    decreases n,
{
    if n <= 0 {
        Seq::empty()
    } else if calls[n - 1].accepts() {
        accepted_by(calls, n - 1).push(frames_of(calls[n - 1]->item@))
    } else {
        accepted_by(calls, n - 1)
    }
}

/// The messages that were handed to the socket and taken by it during the first `n` calls,
/// frame by frame.
pub open spec fn taken_by<E>(calls: Seq<SinkCall<E>>, n: int) -> Seq<Frames>
    decreases n,
{
    if n <= 0 {
        Seq::empty()
    } else if calls[n - 1].reports_taken() {
        taken_by(calls, n - 1).push(calls[n - 2].handed())
    } else {
        taken_by(calls, n - 1)
    }
}

/// The staged message, if any, as a sequence.
pub open spec fn waiting(pending: Option<Frames>) -> Seq<Frames> {
    match pending {
        Some(message) => seq![message],
        None => Seq::empty(),
    }
}

/// `calls` is a run of calls on a sink adapter that stages one message, from an empty slot.
pub open spec fn slot_run<S, E>(states: Seq<SinkState<S>>, calls: Seq<SinkCall<E>>) -> bool {
    &&& states.len() == calls.len() + 1
    &&& states[0].pending is None
    &&& reports_follow(calls)
    &&& forall|i: int|
        #![trigger calls[i]]
        0 <= i < calls.len() ==> match calls[i] {
            SinkCall::StartSend { item, result } => offer_step(
                states[i],
                message_content(item@),
                states[i + 1],
                result,
            ),
            SinkCall::PollFlush { event, action } => flush_step(
                states[i],
                event,
                states[i + 1],
                action,
            ),
        }
}

/// In any run of calls, the messages accepted are those that the socket was handed and took,
/// followed by the one still staged, frame for frame: none is lost, cut, repeated or
/// reordered. A message is refused only while another one is staged.
pub proof fn law_slot_delivers_whole_messages_in_order<S, E>(
    states: Seq<SinkState<S>>,
    calls: Seq<SinkCall<E>>,
    n: int,
)
    requires
        slot_run(states, calls),
        0 <= n <= calls.len(),
    ensures
        accepted_by(calls, n) == taken_by(calls, n) + waiting(states[n].pending),
        n > 0 && calls[n - 1] is StartSend && !calls[n - 1].accepts() ==> states[n
            - 1].pending is Some,
        n > 0 && calls[n - 1].hands() ==> states[n].pending == Some(calls[n - 1].handed()),
        n > 0 ==> states[n].socket == states[n - 1].socket,
    decreases n,
{
    if n > 0 {
        law_slot_delivers_whole_messages_in_order(states, calls, n - 1);
        match calls[n - 1] {
            SinkCall::StartSend { item, result } => {
                law_content_is_frame_by_frame(item);
                law_offers(states[n - 1], message_content(item@), states[n], result);
            },
            SinkCall::PollFlush { event, action } => {
                law_flushes(states[n - 1], event, states[n], action);
                if action is Send {
                    law_content_is_frame_by_frame(action->Send_0);
                }
            },
        }
        assert(accepted_by(calls, n) =~= taken_by(calls, n) + waiting(states[n].pending));
    }
}

/// A flush hands over the first queued message, all frames of it, then the next, and flushes
/// the socket when none is left. A message that the socket did not take stays first, and the
/// outcome is passed on.
pub proof fn law_queue_flushes<S, E>(
    before: QueueState<S>,
    event: FlushEvent<E>,
    after: QueueState<S>,
    action: FlushAction<E>,
)
    requires
        queue_flush_step(before, event, after, action),
    ensures
        after.socket == before.socket,
        event is Start ==> after.queue == before.queue,
        event matches FlushEvent::Sent(Polled::Ready(Ok(_))) ==> after.queue
            == if before.queue.len() == 0 {
            before.queue
        } else {
            before.queue.skip(1)
        },
        event is Start || (event matches FlushEvent::Sent(Polled::Ready(Ok(_))))
            ==> if after.queue.len() == 0 {
            action is FlushSocket
        } else {
            action matches FlushAction::Send(message) && frames_of(message@) == after.queue[0]
        },
        event matches FlushEvent::Sent(Polled::Pending) ==> after.queue == before.queue && (
        action matches FlushAction::Return(outcome) && outcome is Pending),
        event matches FlushEvent::Sent(Polled::Ready(Err(error))) ==> after.queue == before.queue
            && (action matches FlushAction::Return(Polled::Ready(Err(passed))) && passed == error),
{
    if action is Send {
        law_content_is_frame_by_frame(action->Send_0);
    }
    if before.queue.len() > 0 {
        assert(before.queue.drop_first() =~= before.queue.skip(1));
    }
}

/// `calls` is a run of calls on a sink adapter that queues messages, from an empty queue.
pub open spec fn queue_run<S, E>(states: Seq<QueueState<S>>, calls: Seq<SinkCall<E>>) -> bool {
    &&& states.len() == calls.len() + 1
    &&& states[0].queue.len() == 0
    &&& reports_follow(calls)
    &&& forall|i: int|
        #![trigger calls[i]]
        0 <= i < calls.len() ==> match calls[i] {
            SinkCall::StartSend { item, result } => result is Ok && states[i + 1] == (QueueState {
                queue: states[i].queue.push(message_content(item@)),
                ..states[i]
            }),
            SinkCall::PollFlush { event, action } => queue_flush_step(
                states[i],
                event,
                states[i + 1],
                action,
            ),
        }
}

/// In any run of calls, the messages accepted are those that the socket was handed and took,
/// followed by those still queued, frame for frame: none is lost, cut, repeated or
/// reordered.
pub proof fn law_queue_delivers_whole_messages_in_order<S, E>(
    states: Seq<QueueState<S>>,
    calls: Seq<SinkCall<E>>,
    n: int,
)
    requires
        queue_run(states, calls),
        0 <= n <= calls.len(),
    ensures
        accepted_by(calls, n) == taken_by(calls, n) + states[n].queue,
        n > 0 && calls[n - 1].hands() ==> states[n].queue.len() > 0 && states[n].queue[0]
            == calls[n - 1].handed(),
        n > 0 ==> states[n].socket == states[n - 1].socket,
    decreases n,
{
    if n > 0 {
        law_queue_delivers_whole_messages_in_order(states, calls, n - 1);
        match calls[n - 1] {
            SinkCall::StartSend { item, result } => {
                law_content_is_frame_by_frame(item);
            },
            SinkCall::PollFlush { event, action } => {
                law_queue_flushes(states[n - 1], event, states[n], action);
                if action is Send {
                    law_content_is_frame_by_frame(action->Send_0);
                }
            },
        }
        assert(accepted_by(calls, n) =~= taken_by(calls, n) + states[n].queue);
    } else {
        assert(states[0].queue =~= Seq::empty());
        assert(accepted_by(calls, n) =~= taken_by(calls, n) + states[n].queue);
    }
}

} // verus!
