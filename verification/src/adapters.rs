//! Stream and sink adapters around a socket that can be polled.
//!
//! The adapters keep the bookkeeping; whoever drives them performs the calls on the socket
//! that they ask for.

use crate::buffers::{message_content, staged_content};
use crate::polling::{
    flush, flush_step, offer_step, stage, staged, FlushAction, FlushEvent, SinkError, SinkState,
};
use bytes::Bytes;
use vstd::prelude::*;

verus! {

/// Stream adapter for any socket that can receive messages
pub struct SocketStream<S> {
    socket: S,
}

impl<S> View for SocketStream<S> {
    type V = S;

    /// The socket it wraps.
    closed spec fn view(&self) -> S {
        self.socket
    }
}

impl<S> SocketStream<S> {
    /// Create a new stream adapter for a socket
    pub fn new(socket: S) -> (stream: Self)
        ensures
            stream@ == socket,
    {
        SocketStream { socket }
    }

    /// Consume the stream and return the underlying socket
    pub fn into_inner(self) -> (socket: S)
        ensures
            socket == self@,
    {
        self.socket
    }

    /// Get a reference to the underlying socket
    pub fn get_ref(&self) -> (socket: &S)
        ensures
            *socket == self@,
    {
        &self.socket
    }

    /// Get a mutable reference to the underlying socket
    pub fn get_mut(&mut self) -> (socket: &mut S)
        ensures
            *socket == old(self)@,
            *final(socket) == final(self)@,
    {
        &mut self.socket
    }
}

/// Sink adapter for any socket that can send messages
pub struct SocketSink<S> {
    socket: S,
    pending: Option<Vec<Bytes>>,
}

impl<S> View for SocketSink<S> {
    type V = SinkState<S>;

    closed spec fn view(&self) -> SinkState<S> {
        SinkState { socket: self.socket, pending: staged_content(self.pending) }
    }
}

impl<S> SocketSink<S> {
    /// Create a new sink adapter for a socket
    pub fn new(socket: S) -> (sink: Self)
        ensures
            sink@ == (SinkState { socket, pending: None }),
    {
        SocketSink { socket, pending: None }
    }

    /// Consume the sink and return the underlying socket
    pub fn into_inner(self) -> (socket: S)
        ensures
            socket == self@.socket,
    {
        self.socket
    }

    /// Get a reference to the underlying socket
    pub fn get_ref(&self) -> (socket: &S)
        ensures
            *socket == self@.socket,
    {
        &self.socket
    }

    /// Get a mutable reference to the underlying socket
    pub fn get_mut(&mut self) -> (socket: &mut S)
        ensures
            *socket == old(self)@.socket,
            final(self)@ == (SinkState { socket: *final(socket), ..old(self)@ }),
    {
        &mut self.socket
    }

    /// The message that is staged
    pub fn pending(&self) -> (message: Option<&Vec<Bytes>>)
        ensures
            match message {
                Some(frames) => self@.pending == Some(message_content(frames@)),
                None => self@.pending is None,
            },
    {
        self.pending.as_ref()
    }

    /// Stage a message, unless another one is staged
    pub fn start_send(&mut self, item: Vec<Bytes>) -> (result: Result<(), SinkError>)
        ensures
            offer_step(old(self)@, message_content(item@), final(self)@, result),
            final(self)@ == (SinkState {
                pending: staged(old(self)@.pending, message_content(item@)),
                ..old(self)@
            }),
            result == if old(self)@.pending is Some {
                Err::<(), _>(SinkError::WouldBlock)
            } else {
                Ok(())
            },
    {
        stage(&mut self.pending, item)
    }

    /// Perform one step of a flush
    ///
    /// A staged message stays until the socket took it, and is handed over again otherwise.
    pub fn poll_flush<E>(&mut self, event: FlushEvent<E>) -> (action: FlushAction<E>)
        ensures
            flush_step(old(self)@, event, final(self)@, action),
    {
        flush(&mut self.pending, event)
    }

    /// Perform one step of closing, which is flushing
    pub fn poll_close<E>(&mut self, event: FlushEvent<E>) -> (action: FlushAction<E>)
        ensures
            flush_step(old(self)@, event, final(self)@, action),
    {
        self.poll_flush(event)
    }
}

/// Combined stream and sink adapter for bidirectional sockets
pub struct SocketStreamSink<S> {
    socket: S,
    pending: Option<Vec<Bytes>>,
}

impl<S> View for SocketStreamSink<S> {
    type V = SinkState<S>;

    closed spec fn view(&self) -> SinkState<S> {
        SinkState { socket: self.socket, pending: staged_content(self.pending) }
    }
}

impl<S> SocketStreamSink<S> {
    /// Create a new stream+sink adapter for a socket
    pub fn new(socket: S) -> (adapter: Self)
        ensures
            adapter@ == (SinkState { socket, pending: None }),
    {
        SocketStreamSink { socket, pending: None }
    }

    /// Consume the adapter and return the underlying socket
    pub fn into_inner(self) -> (socket: S)
        ensures
            socket == self@.socket,
    {
        self.socket
    }

    /// Get a reference to the underlying socket
    pub fn get_ref(&self) -> (socket: &S)
        ensures
            *socket == self@.socket,
    {
        &self.socket
    }

    /// Get a mutable reference to the underlying socket
    pub fn get_mut(&mut self) -> (socket: &mut S)
        ensures
            *socket == old(self)@.socket,
            final(self)@ == (SinkState { socket: *final(socket), ..old(self)@ }),
    {
        &mut self.socket
    }

    /// The message that is staged
    pub fn pending(&self) -> (message: Option<&Vec<Bytes>>)
        ensures
            match message {
                Some(frames) => self@.pending == Some(message_content(frames@)),
                None => self@.pending is None,
            },
    {
        self.pending.as_ref()
    }

    /// Stage a message, unless another one is staged
    pub fn start_send(&mut self, item: Vec<Bytes>) -> (result: Result<(), SinkError>)
        ensures
            offer_step(old(self)@, message_content(item@), final(self)@, result),
            final(self)@ == (SinkState {
                pending: staged(old(self)@.pending, message_content(item@)),
                ..old(self)@
            }),
            result == if old(self)@.pending is Some {
                Err::<(), _>(SinkError::WouldBlock)
            } else {
                Ok(())
            },
    {
        stage(&mut self.pending, item)
    }

    /// Perform one step of a flush
    ///
    /// A staged message stays until the socket took it, and is handed over again otherwise.
    pub fn poll_flush<E>(&mut self, event: FlushEvent<E>) -> (action: FlushAction<E>)
        ensures
            flush_step(old(self)@, event, final(self)@, action),
    {
        flush(&mut self.pending, event)
    }

    /// Perform one step of closing, which is flushing
    pub fn poll_close<E>(&mut self, event: FlushEvent<E>) -> (action: FlushAction<E>)
        ensures
            flush_step(old(self)@, event, final(self)@, action),
    {
        self.poll_flush(event)
    }
}

} // verus!
