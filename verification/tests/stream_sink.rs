//! Stream and sink adapters around a socket that sends and receives whole messages.

use bytes::Bytes;
use monocoque_zmtp::polling::{FlushAction, FlushEvent, Polled, SinkError};
use monocoque_zmtp::stream_sink::{SocketSink, SocketStream, SocketStreamSink};
use std::io;

/// A socket that records what it is sent, and takes it unless it is told otherwise.
#[derive(Debug, Default, PartialEq)]
struct MockSocket {
    sent: Vec<Vec<Bytes>>,
    busy: usize,
    broken: usize,
}

impl MockSocket {
    fn send(&mut self, msg: Vec<Bytes>) -> Polled<io::Result<()>> {
        if self.busy > 0 {
            self.busy -= 1;
            Polled::Pending
        } else if self.broken > 0 {
            self.broken -= 1;
            Polled::Ready(Err(io::Error::new(io::ErrorKind::BrokenPipe, "send failed")))
        } else {
            self.sent.push(msg);
            Polled::Ready(Ok(()))
        }
    }
}

fn multipart_message() -> Vec<Bytes> {
    vec![
        Bytes::from_static(b"frame-1"),
        Bytes::from_static(b"frame-2"),
    ]
}

/// Perform what a flush of the combined adapter asks for, until it stops.
fn poll_flush(adapter: &mut SocketStreamSink<MockSocket>) -> Polled<io::Result<()>> {
    let mut event = FlushEvent::Start;
    loop {
        match adapter.poll_flush(event) {
            FlushAction::Send(msg) => event = FlushEvent::Sent(adapter.get_mut().send(msg)),
            FlushAction::FlushSocket => return Polled::Ready(Ok(())),
            FlushAction::Return(outcome) => return outcome,
        }
    }
}

/// Perform what closing the sink adapter asks for, until it stops.
fn poll_close(adapter: &mut SocketSink<MockSocket>) -> Polled<io::Result<()>> {
    let mut event = FlushEvent::Start;
    loop {
        match adapter.poll_close(event) {
            FlushAction::Send(msg) => event = FlushEvent::Sent(adapter.get_mut().send(msg)),
            FlushAction::FlushSocket => return Polled::Ready(Ok(())),
            FlushAction::Return(outcome) => return outcome,
        }
    }
}

#[test]
fn test_stream_sink_stages_multipart_message_atomically_rfc37() {
    let mut adapter = SocketStreamSink::new(MockSocket::default());
    let multipart = multipart_message();

    adapter.start_send(multipart.clone()).unwrap();
    assert_eq!(adapter.pending_send(), Some(&multipart));
}

#[test]
fn test_stream_sink_rejects_overwriting_pending_message() {
    let mut adapter = SocketStreamSink::new(MockSocket::default());
    let first = vec![Bytes::from_static(b"first")];
    let second = vec![Bytes::from_static(b"second")];

    adapter.start_send(first.clone()).unwrap();

    let err = adapter
        .start_send(second)
        .expect_err("a second send before flush should be rejected");

    assert_eq!(err, SinkError::WouldBlock);
    assert_eq!(adapter.pending_send(), Some(&first));
}

#[test]
fn test_stream_sink_flush_clears_pending_message() {
    let mut adapter = SocketStreamSink::new(MockSocket::default());
    let message = vec![Bytes::from_static(b"payload")];

    adapter.start_send(message.clone()).unwrap();
    assert!(matches!(poll_flush(&mut adapter), Polled::Ready(Ok(()))));
    assert!(adapter.pending_send().is_none());
    assert_eq!(adapter.get_ref().sent, vec![message]);
}

#[test]
fn stream_sink_keeps_a_message_until_the_socket_took_it() {
    let mut adapter = SocketStreamSink::new(MockSocket {
        busy: 1,
        broken: 1,
        ..MockSocket::default()
    });
    assert_eq!(adapter.poll_ready(), Polled::Ready(Ok(())));
    adapter.start_send(multipart_message()).unwrap();
    assert!(matches!(poll_flush(&mut adapter), Polled::Pending));
    assert_eq!(adapter.pending_send(), Some(&multipart_message()));
    assert!(matches!(
        poll_flush(&mut adapter),
        Polled::Ready(Err(error)) if error.kind() == io::ErrorKind::BrokenPipe
    ));
    assert_eq!(adapter.pending_send(), Some(&multipart_message()));
    assert!(matches!(poll_flush(&mut adapter), Polled::Ready(Ok(()))));
    assert!(adapter.pending_send().is_none());
    assert_eq!(adapter.start_send(vec![]), Ok(()));
    assert_eq!(adapter.pending_send(), Some(&vec![]));
    assert!(matches!(
        adapter.poll_close(FlushEvent::<io::Error>::Start),
        FlushAction::Send(msg) if msg.is_empty()
    ));
    assert_eq!(adapter.into_inner().sent, vec![multipart_message()]);
}

#[test]
fn sink_takes_message_after_message_and_sends_each_once_in_order() {
    let mut sink = SocketSink::new(MockSocket {
        busy: 1,
        broken: 1,
        ..MockSocket::default()
    });
    let other = vec![Bytes::from_static(b"other")];
    assert!(matches!(poll_close(&mut sink), Polled::Ready(Ok(()))));

    assert_eq!(sink.poll_ready(), Polled::Ready(Ok(())));
    assert_eq!(sink.start_send(multipart_message()), Ok(()));
    assert_eq!(sink.poll_ready(), Polled::Ready(Ok(())));
    assert_eq!(sink.start_send(other.clone()), Ok(()));
    assert_eq!(*sink.queued(), vec![multipart_message(), other.clone()]);

    assert!(matches!(poll_close(&mut sink), Polled::Pending));
    assert!(matches!(
        poll_close(&mut sink),
        Polled::Ready(Err(error)) if error.kind() == io::ErrorKind::BrokenPipe
    ));
    assert_eq!(*sink.queued(), vec![multipart_message(), other.clone()]);
    assert_eq!(sink.start_send(vec![]), Ok(()));
    assert!(matches!(poll_close(&mut sink), Polled::Ready(Ok(()))));
    assert!(sink.queued().is_empty());
    assert_eq!(
        sink.get_ref().sent,
        vec![multipart_message(), other, vec![]]
    );
    sink.get_mut().busy = 3;
    assert_eq!(sink.into_inner().busy, 3);
}

#[test]
fn a_taken_message_makes_way_for_the_next() {
    let mut sink = SocketSink::new(MockSocket::default());
    let other = vec![Bytes::from_static(b"other")];
    sink.start_send(multipart_message()).unwrap();
    sink.start_send(other.clone()).unwrap();
    assert!(matches!(
        sink.poll_flush(FlushEvent::<io::Error>::Start),
        FlushAction::Send(msg) if msg == multipart_message()
    ));
    assert!(matches!(
        sink.poll_flush(FlushEvent::<io::Error>::Sent(Polled::Ready(Ok(())))),
        FlushAction::Send(msg) if msg == other
    ));
    assert!(matches!(
        sink.poll_flush(FlushEvent::<io::Error>::Sent(Polled::Ready(Ok(())))),
        FlushAction::FlushSocket
    ));
    assert!(matches!(
        sink.poll_flush(FlushEvent::<io::Error>::Sent(Polled::Ready(Ok(())))),
        FlushAction::FlushSocket
    ));
    assert!(sink.queued().is_empty());
}

#[test]
fn streams_yield_what_the_socket_receives() {
    let mut stream = SocketStream::new(MockSocket::default());
    let combined = SocketStreamSink::new(MockSocket::default());

    assert!(matches!(stream.poll_next::<io::Error>(Polled::Pending), Polled::Pending));
    assert!(matches!(combined.poll_next::<io::Error>(Polled::Pending), Polled::Pending));
    assert!(matches!(
        stream.poll_next::<io::Error>(Polled::Ready(Ok(Some(multipart_message())))),
        Polled::Ready(Some(Ok(msg))) if msg == multipart_message()
    ));
    assert!(matches!(
        combined.poll_next::<io::Error>(Polled::Ready(Ok(Some(multipart_message())))),
        Polled::Ready(Some(Ok(msg))) if msg == multipart_message()
    ));
    assert!(matches!(
        stream.poll_next::<io::Error>(Polled::Ready(Ok(None))),
        Polled::Ready(None)
    ));
    assert!(matches!(
        combined.poll_next::<io::Error>(Polled::Ready(Ok(None))),
        Polled::Ready(None)
    ));
    let broken = || Polled::Ready(Err(io::Error::new(io::ErrorKind::BrokenPipe, "gone")));
    assert!(matches!(
        stream.poll_next(broken()),
        Polled::Ready(Some(Err(error))) if error.kind() == io::ErrorKind::BrokenPipe
    ));
    assert!(matches!(
        combined.poll_next(broken()),
        Polled::Ready(Some(Err(error))) if error.kind() == io::ErrorKind::BrokenPipe
    ));

    assert_eq!(*stream.get_ref(), MockSocket::default());
    stream.get_mut().busy = 2;
    assert_eq!(stream.into_inner().busy, 2);
}
