//! Stream and sink adapters around a socket that sends and receives whole messages.
//!
//! Streams yield what the socket receives, and sinks hand the messages they are given to
//! the socket. The adapters keep the bookkeeping; whoever drives them polls the socket and
//! tells them what came of it.

use crate::buffers::{message_content, staged_content};
use crate::polling::{
    flush, flush_queue, flush_step, offer_step, queue_content, queue_flush_step, stage, staged,
    stream_item, to_stream_item, FlushAction, FlushEvent, Polled, QueueState, SinkError, SinkState,
};
use bytes::Bytes;
use vstd::prelude::*;

verus! {

/// Stream adapter
pub struct SocketStream<S> {
    socket: S,
}

impl<S> View for SocketStream<S> {
    type V = S;

    /// The socket it wraps.
    closed spec fn view(&self) -> S {
        self.socket
    }
}

impl<S> SocketStream<S> {
    /// Create a new stream adapter for a socket.
    pub fn new(socket: S) -> (stream: Self)
        ensures
            stream@ == socket,
    {
        SocketStream { socket }
    }

    /// Get a reference to the underlying socket.
    pub fn get_ref(&self) -> (socket: &S)
        ensures
            *socket == self@,
    {
        &self.socket
    }

    /// Get a mutable reference to the underlying socket.
    pub fn get_mut(&mut self) -> (socket: &mut S)
        ensures
            *socket == old(self)@,
            *final(socket) == final(self)@,
    {
        &mut self.socket
    }

    /// Consume the adapter and return the underlying socket.
    pub fn into_inner(self) -> (socket: S)
        ensures
            socket == self@,
    {
        self.socket
    }

    /// The next message, given what receiving from the socket came to
    pub fn poll_next<E>(&self, received: Polled<Result<Option<Vec<Bytes>>, E>>) -> (polled: Polled<
        Option<Result<Vec<Bytes>, E>>,
    >)
        ensures
            polled == stream_item(received),
    {
        to_stream_item(received)
    }
}

/// Sink adapter
///
/// It takes any number of messages, and hands them to the socket one after the other when it
/// is flushed.
pub struct SocketSink<S> {
    socket: S,
    queue: Vec<Vec<Bytes>>,
}

impl<S> View for SocketSink<S> {
    type V = QueueState<S>;

    closed spec fn view(&self) -> QueueState<S> {
        QueueState { socket: self.socket, queue: queue_content(self.queue@) }
    }
}

impl<S> SocketSink<S> {
    /// Create a new sink adapter for a socket.
    pub fn new(socket: S) -> (sink: Self)
        ensures
            sink@ == (QueueState { socket, queue: Seq::empty() }),
    {
        let sink = SocketSink { socket, queue: Vec::new() };
        assert(sink@.queue =~= Seq::empty());
        sink
    }

    /// Get a reference to the underlying socket.
    pub fn get_ref(&self) -> (socket: &S)
        ensures
            *socket == self@.socket,
    {
        &self.socket
    }

    /// Get a mutable reference to the underlying socket.
    pub fn get_mut(&mut self) -> (socket: &mut S)
        ensures
            *socket == old(self)@.socket,
            final(self)@ == (QueueState { socket: *final(socket), ..old(self)@ }),
    {
        &mut self.socket
    }

    /// Consume the adapter and return the underlying socket.
    pub fn into_inner(self) -> (socket: S)
        ensures
            socket == self@.socket,
    {
        self.socket
    }

    /// The messages that the socket did not take yet, in order
    pub fn queued(&self) -> (messages: &Vec<Vec<Bytes>>)
        ensures
            queue_content(messages@) == self@.queue,
    {
        &self.queue
    }

    /// Whether a message can be sent: always, sockets buffer on their own
    pub fn poll_ready(&self) -> (polled: Polled<Result<(), SinkError>>)
        ensures
            polled == Polled::Ready(Ok::<(), SinkError>(())),
    {
        Polled::Ready(Ok(()))
    }

    /// Queue a message
    pub fn start_send(&mut self, item: Vec<Bytes>) -> (result: Result<(), SinkError>)
        ensures
            result is Ok,
            final(self)@ == (QueueState {
                queue: old(self)@.queue.push(message_content(item@)),
                ..old(self)@
            }),
    {
        self.queue.push(item);
        assert(self@.queue =~= old(self)@.queue.push(message_content(item@)));
        Ok(())
    }

    /// Perform one step of a flush
    ///
    /// A queued message stays until the socket took it, and is handed over again otherwise.
    pub fn poll_flush<E>(&mut self, event: FlushEvent<E>) -> (action: FlushAction<E>)
        ensures
            queue_flush_step(old(self)@, event, final(self)@, action),
    {
        flush_queue(&mut self.queue, event)
    }

    /// Perform one step of closing, which is flushing
    pub fn poll_close<E>(&mut self, event: FlushEvent<E>) -> (action: FlushAction<E>)
        ensures
            queue_flush_step(old(self)@, event, final(self)@, action),
    {
        self.poll_flush(event)
    }
}

/// Combined stream and sink adapter for bidirectional sockets.
pub struct SocketStreamSink<S> {
    socket: S,
    pending_send: Option<Vec<Bytes>>,
}

impl<S> View for SocketStreamSink<S> {
    type V = SinkState<S>;

    closed spec fn view(&self) -> SinkState<S> {
        SinkState { socket: self.socket, pending: staged_content(self.pending_send) }
    }
}

impl<S> SocketStreamSink<S> {
    /// Create a new combined stream/sink adapter.
    pub fn new(socket: S) -> (adapter: Self)
        ensures
            adapter@ == (SinkState { socket, pending: None }),
    {
        SocketStreamSink { socket, pending_send: None }
    }

    /// Get a reference to the underlying socket.
    pub fn get_ref(&self) -> (socket: &S)
        ensures
            *socket == self@.socket,
    {
        &self.socket
    }

    /// Get a mutable reference to the underlying socket.
    pub fn get_mut(&mut self) -> (socket: &mut S)
        ensures
            *socket == old(self)@.socket,
            final(self)@ == (SinkState { socket: *final(socket), ..old(self)@ }),
    {
        &mut self.socket
    }

    /// Consume the adapter and return the underlying socket.
    pub fn into_inner(self) -> (socket: S)
        ensures
            socket == self@.socket,
    {
        self.socket
    }

    /// The message that is staged
    pub fn pending_send(&self) -> (message: Option<&Vec<Bytes>>)
        ensures
            match message {
                Some(frames) => self@.pending == Some(message_content(frames@)),
                None => self@.pending is None,
            },
    {
        self.pending_send.as_ref()
    }

    /// The next message, given what receiving from the socket came to
    pub fn poll_next<E>(&self, received: Polled<Result<Option<Vec<Bytes>>, E>>) -> (polled: Polled<
        Option<Result<Vec<Bytes>, E>>,
    >)
        ensures
            polled == stream_item(received),
    {
        to_stream_item(received)
    }

    /// Whether a message can be sent: always, sockets buffer on their own
    pub fn poll_ready(&self) -> (polled: Polled<Result<(), SinkError>>)
        ensures
            polled == Polled::Ready(Ok::<(), SinkError>(())),
    {
        Polled::Ready(Ok(()))
    }

    /// Stage a message, unless another one is staged
    pub fn start_send(&mut self, item: Vec<Bytes>) -> (result: Result<(), SinkError>)
        ensures
            offer_step(old(self)@, message_content(item@), final(self)@, result),
            final(self)@ == (SinkState {
                pending: staged(old(self)@.pending, message_content(item@)),
                ..old(self)@
            }),
            result == if old(self)@.pending is Some {
                Err::<(), _>(SinkError::WouldBlock)
            } else {
                Ok(())
            },
    {
        stage(&mut self.pending_send, item)
    }

    /// Perform one step of a flush
    ///
    /// A staged message stays until the socket took it, and is handed over again otherwise.
    pub fn poll_flush<E>(&mut self, event: FlushEvent<E>) -> (action: FlushAction<E>)
        ensures
            flush_step(old(self)@, event, final(self)@, action),
    {
        flush(&mut self.pending_send, event)
    }

    /// Perform one step of closing, which is flushing
    pub fn poll_close<E>(&mut self, event: FlushEvent<E>) -> (action: FlushAction<E>)
        ensures
            flush_step(old(self)@, event, final(self)@, action),
    {
        self.poll_flush(event)
    }
}

} // verus!
