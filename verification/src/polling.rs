//! What the stream and sink adapters share: poll results, and the model of a sink that
//! stages one message at a time.

use crate::buffers::{copy_message, message_content, staged_content};
use bytes::Bytes;
use vstd::prelude::*;

verus! {

/// The result of asking for something that may not be available yet.
#[derive(Debug, PartialEq, Eq)]
pub enum Polled<T> {
    /// Not yet.
    Pending,
    /// Here it is.
    Ready(T),
}

/// What a stream yields for what its socket received: a message, an error, or the end once
/// the socket has no more.
pub open spec fn stream_item<E>(received: Polled<Result<Option<Vec<Bytes>>, E>>) -> Polled<
    Option<Result<Vec<Bytes>, E>>,
> {
    match received {
        Polled::Pending => Polled::Pending,
        Polled::Ready(Ok(Some(message))) => Polled::Ready(Some(Ok(message))),
        Polled::Ready(Ok(None)) => Polled::Ready(None),
        Polled::Ready(Err(error)) => Polled::Ready(Some(Err(error))),
    }
}

/// Turn what a socket received into what a stream yields.
pub(crate) fn to_stream_item<E>(received: Polled<Result<Option<Vec<Bytes>>, E>>) -> (polled: Polled<
    Option<Result<Vec<Bytes>, E>>,
>)
    ensures
        polled == stream_item(received),
{
    match received {
        Polled::Pending => Polled::Pending,
        Polled::Ready(Ok(Some(message))) => Polled::Ready(Some(Ok(message))),
        Polled::Ready(Ok(None)) => Polled::Ready(None),
        Polled::Ready(Err(error)) => Polled::Ready(Some(Err(error))),
    }
}

/// Why a sink does not take a message.
#[derive(Debug, Clone, Copy, PartialEq, Eq, Structural)]
pub enum SinkError {
    /// Another message is staged and has to be flushed first.
    WouldBlock,
}

impl SinkError {
    /// The error in words
    pub fn message(&self) -> (text: &'static str)
        ensures
            text@ == "previous message has not been flushed yet"@,
    {
        "previous message has not been flushed yet"
    }
}

/// A multipart message: its frames, in order.
pub type Frames = Seq<Seq<u8>>;

/// The state of a sink adapter.
pub struct SinkState<S> {
    /// The socket it wraps.
    pub socket: S,
    /// The message that is staged.
    pub pending: Option<Frames>,
}

/// What is staged after a message was offered: an empty slot takes it, an occupied one
/// keeps what it holds.
pub open spec fn staged(pending: Option<Frames>, item: Frames) -> Option<Frames> {
    match pending {
        Some(earlier) => Some(earlier),
        None => Some(item),
    }
}

/// What is staged after the socket was handed the staged message: only a message that the
/// socket took leaves the slot.
pub open spec fn settled(pending: Option<Frames>, taken: bool) -> Option<Frames> {
    if taken {
        None
    } else {
        pending
    }
}

/// What offering a message to a sink that stages one message does.
pub open spec fn offer_step<S>(
    before: SinkState<S>,
    item: Frames,
    after: SinkState<S>,
    result: Result<(), SinkError>,
) -> bool {
    &&& after == (SinkState { pending: staged(before.pending, item), ..before })
    &&& result == if before.pending is Some {
        Err::<(), _>(SinkError::WouldBlock)
    } else {
        Ok(())
    }
}

/// The socket took the message that it was handed.
pub open spec fn is_taken<E>(outcome: Polled<Result<(), E>>) -> bool {
    outcome matches Polled::Ready(result) && result is Ok
}

/// What a flush is to be told.
pub enum FlushEvent<E> {
    /// The flush starts.
    Start,
    /// The socket was handed the staged message, with this outcome.
    Sent(Polled<Result<(), E>>),
}

/// What a flush asks for next.
pub enum FlushAction<E> {
    /// Hand this message to the socket, and report the outcome.
    Send(Vec<Bytes>),
    /// Flush the socket; what it returns is the outcome of the whole flush. A socket that
    /// has nothing to flush returns success.
    FlushSocket,
    /// Stop with this outcome.
    Return(Polled<Result<(), E>>),
}

/// One step of flushing a sink: what it does to the slot and what it asks for.
pub open spec fn flush_step<S, E>(
    before: SinkState<S>,
    event: FlushEvent<E>,
    after: SinkState<S>,
    action: FlushAction<E>,
) -> bool {
    &&& after.socket == before.socket
    &&& match event {
        FlushEvent::Start => after.pending == before.pending && match before.pending {
            Some(message) => action matches FlushAction::Send(frames) && message_content(frames@)
                == message,
            None => action is FlushSocket,
        },
        FlushEvent::Sent(outcome) => after.pending == settled(
            before.pending,
            is_taken(outcome),
        ) && if is_taken(outcome) {
            action is FlushSocket
        } else {
            action == FlushAction::Return(outcome)
        },
    }
}

/// Put a message into an empty slot; an occupied slot keeps what it holds.
pub(crate) fn stage(slot: &mut Option<Vec<Bytes>>, item: Vec<Bytes>) -> (result: Result<
    (),
    SinkError,
>)
    ensures
        staged_content(*final(slot)) == staged(
            staged_content(*old(slot)),
            message_content(item@),
        ),
        result == if *old(slot) is Some {
            Err::<(), _>(SinkError::WouldBlock)
        } else {
            Ok(())
        },
{
    if slot.is_some() {
        return Err(SinkError::WouldBlock);
    }
    *slot = Some(item);
    Ok(())
}

/// One step of flushing a slot.
pub(crate) fn flush<E>(slot: &mut Option<Vec<Bytes>>, event: FlushEvent<E>) -> (action:
    FlushAction<E>)
    ensures
        flush_step(
            (SinkState { socket: (), pending: staged_content(*old(slot)) }),
            event,
            (SinkState { socket: (), pending: staged_content(*final(slot)) }),
            action,
        ),
{
    match event {
        FlushEvent::Start => match slot.as_ref() {
            Some(message) => FlushAction::Send(copy_message(message)),
            None => FlushAction::FlushSocket,
        },
        FlushEvent::Sent(Polled::Ready(Ok(_))) => {
            *slot = None;
            FlushAction::FlushSocket
        },
        FlushEvent::Sent(outcome) => FlushAction::Return(outcome),
    }
}

/// What happens to a sink adapter.
pub enum SinkEvent {
    /// A message is offered.
    Offered(Frames),
    /// The socket is handed the staged message and takes it, or not.
    Handed {
        /// Whether the socket takes it.
        taken: bool,
    },
}

/// What is staged after a run of events, starting from an empty slot.
pub open spec fn pending_after(events: Seq<SinkEvent>) -> Option<Frames>
    decreases events.len(),
{
    if events.len() == 0 {
        None
    } else {
        let before = pending_after(events.drop_last());
        match events.last() {
            SinkEvent::Offered(item) => staged(before, item),
            SinkEvent::Handed { taken } => settled(before, taken),
        }
    }
}

/// The messages that were accepted during a run of events, in order.
pub open spec fn accepted(events: Seq<SinkEvent>) -> Seq<Frames>
    decreases events.len(),
{
    if events.len() == 0 {
        Seq::empty()
    } else {
        let earlier = accepted(events.drop_last());
        match events.last() {
            SinkEvent::Offered(item) => if pending_after(events.drop_last()) is None {
                earlier.push(item)
            } else {
                earlier
            },
            SinkEvent::Handed { .. } => earlier,
        }
    }
}

/// The messages that the socket took during a run of events, in order.
pub open spec fn delivered(events: Seq<SinkEvent>) -> Seq<Frames>
    decreases events.len(),
{
    if events.len() == 0 {
        Seq::empty()
    } else {
        let earlier = delivered(events.drop_last());
        match (events.last(), pending_after(events.drop_last())) {
            (SinkEvent::Handed { taken: true }, Some(message)) => earlier.push(message),
            _ => earlier,
        }
    }
}

/// Whatever happens, the messages accepted are those that the socket took, followed by the
/// one that is still staged: none is lost, overwritten, repeated or reordered.
pub proof fn law_messages_are_delivered_once_in_order(events: Seq<SinkEvent>)
    ensures
        accepted(events) == delivered(events) + match pending_after(events) {
            Some(message) => seq![message],
            None => Seq::empty(),
        },
    decreases events.len(),
{
    if events.len() > 0 {
        law_messages_are_delivered_once_in_order(events.drop_last());
        let tail = match pending_after(events) {
            Some(message) => seq![message],
            None => Seq::empty(),
        };
        assert(accepted(events) =~= delivered(events) + tail);
    }
}

/// The state of a sink adapter that queues messages.
pub struct QueueState<S> {
    /// The socket it wraps.
    pub socket: S,
    /// The messages that the socket did not take yet, in order.
    pub queue: Seq<Frames>,
}

/// The contents of queued messages.
pub open spec fn queue_content(queue: Seq<Vec<Bytes>>) -> Seq<Frames> {
    queue.map_values(|message: Vec<Bytes>| message_content(message@))
}

/// What is queued after the socket was handed the first message: only a message that the
/// socket took leaves the queue.
pub open spec fn queue_settled(queue: Seq<Frames>, taken: bool) -> Seq<Frames> {
    if taken && queue.len() > 0 {
        queue.drop_first()
    } else {
        queue
    }
}

/// What a flush asks for with these messages queued: to send the first one, or to flush the
/// socket once there is none.
pub open spec fn sends_first<E>(queue: Seq<Frames>, action: FlushAction<E>) -> bool {
    if queue.len() > 0 {
        action matches FlushAction::Send(frames) && message_content(frames@) == queue[0]
    } else {
        action is FlushSocket
    }
}

/// One step of flushing a queue: what it does to the queue and what it asks for.
pub open spec fn queue_flush_step<S, E>(
    before: QueueState<S>,
    event: FlushEvent<E>,
    after: QueueState<S>,
    action: FlushAction<E>,
) -> bool {
    &&& after.socket == before.socket
    &&& match event {
        FlushEvent::Start => after.queue == before.queue && sends_first(after.queue, action),
        FlushEvent::Sent(outcome) => after.queue == queue_settled(before.queue, is_taken(outcome))
            && if is_taken(outcome) {
            sends_first(after.queue, action)
        } else {
            action == FlushAction::Return(outcome)
        },
    }
}

/// Ask for the first queued message to be sent, or for the socket to be flushed.
fn send_first<E>(queue: &Vec<Vec<Bytes>>) -> (action: FlushAction<E>)
    ensures
        sends_first(queue_content(queue@), action),
{
    if queue.len() > 0 {
        FlushAction::Send(copy_message(&queue[0]))
    } else {
        FlushAction::FlushSocket
    }
}

/// One step of flushing a queue.
pub(crate) fn flush_queue<E>(queue: &mut Vec<Vec<Bytes>>, event: FlushEvent<E>) -> (action:
    FlushAction<E>)
    ensures
        queue_flush_step(
            (QueueState { socket: (), queue: queue_content(old(queue)@) }),
            event,
            (QueueState { socket: (), queue: queue_content(final(queue)@) }),
            action,
        ),
{
    match event {
        FlushEvent::Start => send_first(queue),
        FlushEvent::Sent(Polled::Ready(Ok(_))) => {
            if queue.len() > 0 {
                queue.remove(0);
                assert(queue_content(queue@) =~= queue_content(old(queue)@).drop_first());
            }
            send_first(queue)
        },
        FlushEvent::Sent(outcome) => FlushAction::Return(outcome),
    }
}

/// What is queued after a run of events, starting from an empty queue. Every message offered
/// is accepted.
pub open spec fn queued_after(events: Seq<SinkEvent>) -> Seq<Frames>
    decreases events.len(),
{
    if events.len() == 0 {
        Seq::empty()
    } else {
        let before = queued_after(events.drop_last());
        match events.last() {
            SinkEvent::Offered(item) => before.push(item),
            SinkEvent::Handed { taken } => queue_settled(before, taken),
        }
    }
}

/// The messages that were offered during a run of events, in order.
pub open spec fn offered(events: Seq<SinkEvent>) -> Seq<Frames>
    decreases events.len(),
{
    if events.len() == 0 {
        Seq::empty()
    } else {
        let earlier = offered(events.drop_last());
        match events.last() {
            SinkEvent::Offered(item) => earlier.push(item),
            SinkEvent::Handed { .. } => earlier,
        }
    }
}

/// The messages that the socket took from the queue during a run of events, in order.
pub open spec fn dequeued(events: Seq<SinkEvent>) -> Seq<Frames>
    decreases events.len(),
{
    if events.len() == 0 {
        Seq::empty()
    } else {
        let earlier = dequeued(events.drop_last());
        let before = queued_after(events.drop_last());
        match events.last() {
            SinkEvent::Handed { taken: true } => if before.len() > 0 {
                earlier.push(before[0])
            } else {
                earlier
            },
            _ => earlier,
        }
    }
}

/// Whatever happens, the messages offered to a queueing sink are those that the socket took,
/// followed by those still queued: none is refused, lost, repeated or reordered.
pub proof fn law_queued_messages_are_delivered_once_in_order(events: Seq<SinkEvent>)
    ensures
        offered(events) == dequeued(events) + queued_after(events),
    decreases events.len(),
{
    if events.len() > 0 {
        law_queued_messages_are_delivered_once_in_order(events.drop_last());
        assert(offered(events) =~= dequeued(events) + queued_after(events));
    }
}

} // verus!
