//! What holds of message sessions as a whole: messages are read back once and in order,
//! whatever else is sent and received, and no cipher nonce is used twice.

use crate::security::curve::message::{
    message_counter, message_counter_bytes, message_formed, Session, Verdict,
};
use crate::security::curve::wire::{
    aead_nonce, be_value, boxed, unboxed, CURVE_CLIENT_MESSAGE_PREFIX,
    CURVE_INITIATE_NONCE_PREFIX, CURVE_READY_NONCE_PREFIX, CURVE_SERVER_MESSAGE_PREFIX,
};
use vstd::prelude::*;

verus! {

/// What was boxed is read back by whoever has the same key and a nonce with the same last 12
/// bytes; the first 12 do not count. A box is 16 bytes longer than what it holds.
pub proof fn law_box_read_back(
    key: Seq<u8>,
    seal_nonce: Seq<u8>,
    open_nonce: Seq<u8>,
    plaintext: Seq<u8>,
    ciphertext: Seq<u8>,
)
    requires
        seal_nonce.len() == 24,
        open_nonce.len() == 24,
        seal_nonce.subrange(12, 24) == open_nonce.subrange(12, 24),
        boxed(key, seal_nonce, plaintext, ciphertext),
    ensures
        unboxed(key, open_nonce, ciphertext) == Some(plaintext),
        ciphertext.len() == plaintext.len() + 16,
{
}

/// One end of a connection sends what the other receives: same key, same nonce prefix, and
/// the receiver is not ahead of the sender.
pub open spec fn linked(sender: Session, receiver: Session) -> bool {
    &&& sender.key == receiver.key
    &&& sender.send_prefix == receiver.recv_prefix
    &&& receiver.recv_nonce <= sender.send_nonce
}

/// The sessions that a handshake leaves behind are linked in both directions.
pub proof fn law_sessions_linked(key: Seq<u8>)
    ensures
        linked(Session::client(key), Session::server(key)),
        linked(Session::server(key), Session::client(key)),
{
}

/// The receiver reads back exactly what the sender sealed, and the two stay linked.
pub proof fn law_message_read_back(
    sender: Session,
    receiver: Session,
    message: Seq<u8>,
    plaintext: Seq<u8>,
)
    requires
        linked(sender, receiver),
        sender.send_nonce < u64::MAX,
        message_formed(
            message,
            sender.key,
            sender.send_prefix,
            sender.send_nonce as nat,
            plaintext,
        ),
    ensures
        receiver.verdict(message) == Verdict::Accepted(plaintext),
        linked(sender.sent(), receiver.received(message)),
{
}

/// What happens to a session.
pub enum SessionEvent {
    /// A message is to be sealed.
    Sealing,
    /// A command is received.
    Received(Seq<u8>),
}

impl Session {
    /// The state after one event. Sealing uses up a counter, unless none is left.
    pub open spec fn after(self, event: SessionEvent) -> Session {
        match event {
            SessionEvent::Sealing => if self.send_nonce == u64::MAX {
                self
            } else {
                self.sent()
            },
            SessionEvent::Received(message) => self.received(message),
        }
    }

    /// The state after a run of events, in any mixture.
    pub open spec fn run(self, events: Seq<SessionEvent>) -> Session
        decreases events.len(),
    {
        if events.len() == 0 {
            self
        } else {
            self.run(events.drop_last()).after(events.last())
        }
    }

    /// Event `i` of a run is a command that is accepted.
    pub open spec fn accepts_at(self, events: Seq<SessionEvent>, i: int) -> bool {
        events[i] matches SessionEvent::Received(message) && self.run(events.take(i)).verdict(
            message,
        ) is Accepted
    }
}

/// The first events of a run leave the state that the next one starts from.
proof fn lemma_run_step(session: Session, events: Seq<SessionEvent>, i: int)
    requires
        0 <= i < events.len(),
    ensures
        session.run(events.take(i + 1)) == session.run(events.take(i)).after(events[i]),
{
    assert(events.take(i + 1).drop_last() =~= events.take(i));
}

/// A run is its first events followed by the rest.
proof fn lemma_run_split(session: Session, events: Seq<SessionEvent>, i: int)
    requires
        0 <= i <= events.len(),
    ensures
        session.run(events) == session.run(events.take(i)).run(events.skip(i)),
    decreases events.len() - i,
{
    if i == events.len() {
        assert(events.take(i) =~= events);
    } else {
        let shorter = events.drop_last();
        lemma_run_split(session, shorter, i);
        assert(shorter.take(i) =~= events.take(i));
        assert(shorter.skip(i) =~= events.skip(i).drop_last());
    }
}

/// An accepted command with counter `c` moves the smallest counter that is still accepted to
/// `c + 1`; a refused one, whatever its counter, changes nothing. Receiving never touches
/// the sender's counter, and sending never touches the receiver's.
pub proof fn law_events_do_not_interfere(session: Session, message: Seq<u8>)
    ensures
        session.verdict(message) is Accepted ==> session.received(message) == (Session {
            recv_nonce: (message_counter(message) + 1) as u64,
            ..session
        }) && message_counter(message) < u64::MAX,
        session.verdict(message) !is Accepted ==> session.received(message) == session,
        session.received(message).send_nonce == session.send_nonce,
        session.after(SessionEvent::Sealing).recv_nonce == session.recv_nonce,
{
}

/// Whatever is sent and received, neither counter of a session ever falls, and its key and
/// prefixes stay.
pub proof fn law_sessions_move_forward(session: Session, events: Seq<SessionEvent>)
    ensures
        session.run(events).send_nonce >= session.send_nonce,
        session.run(events).recv_nonce >= session.recv_nonce,
        session.run(events) == (Session {
            send_nonce: session.run(events).send_nonce,
            recv_nonce: session.run(events).recv_nonce,
            ..session
        }),
    decreases events.len(),
{
    if events.len() > 0 {
        law_sessions_move_forward(session, events.drop_last());
    }
}

/// Replay protection: in any run of sends and receives the counters of the commands accepted
/// strictly increase.
pub proof fn law_accepted_counters_increase(
    session: Session,
    events: Seq<SessionEvent>,
    i: int,
    j: int,
)
    requires
        0 <= i < j < events.len(),
        session.accepts_at(events, i),
        session.accepts_at(events, j),
    ensures
        message_counter(events[i]->Received_0) < message_counter(events[j]->Received_0),
{
    lemma_run_step(session, events, i);
    lemma_run_split(session, events.take(j), i + 1);
    assert(events.take(j).take(i + 1) =~= events.take(i + 1));
    law_sessions_move_forward(session.run(events.take(i + 1)), events.take(j).skip(i + 1));
}

/// Replay protection: once a command was accepted, it is refused for good, whatever is sent
/// and received in between.
pub proof fn law_replay_refused(session: Session, message: Seq<u8>, between: Seq<SessionEvent>)
    requires
        session.verdict(message) is Accepted,
    ensures
        session.received(message).run(between).verdict(message) is Violation,
{
    law_sessions_move_forward(session.received(message), between);
}

/// Two ends that started at counter zero under one key, with each other's prefixes: after
/// any sends and receives on either end, a message that the receiver is not ahead of is read
/// back exactly, even where messages before it were lost.
pub proof fn law_message_read_back_after_any_calls(
    key: Seq<u8>,
    prefix: Seq<u8>,
    other_prefix: Seq<u8>,
    sender_events: Seq<SessionEvent>,
    receiver_events: Seq<SessionEvent>,
    message: Seq<u8>,
    plaintext: Seq<u8>,
)
    requires
        ({
            let sender = Session::starting(key, prefix, other_prefix).run(sender_events);
            let receiver = Session::starting(key, other_prefix, prefix).run(receiver_events);
            &&& receiver.recv_nonce <= sender.send_nonce < u64::MAX
            &&& message_formed(message, key, prefix, sender.send_nonce as nat, plaintext)
        }),
    ensures
        ({
            let sender = Session::starting(key, prefix, other_prefix).run(sender_events);
            let receiver = Session::starting(key, other_prefix, prefix).run(receiver_events);
            &&& receiver.verdict(message) == Verdict::Accepted(plaintext)
            &&& receiver.received(message).recv_nonce == sender.send_nonce + 1
        }),
{
    let sender = Session::starting(key, prefix, other_prefix);
    let receiver = Session::starting(key, other_prefix, prefix);
    law_sessions_move_forward(sender, sender_events);
    law_sessions_move_forward(receiver, receiver_events);
    law_message_read_back(
        sender.run(sender_events),
        receiver.run(receiver_events),
        message,
        plaintext,
    );
}

/// The commands received in a run were sealed by the other end with these counters and
/// contents, the counters increase, and none is below what the session still accepts. Others
/// may have been lost on the way.
pub open spec fn sealed_in_order(
    session: Session,
    events: Seq<SessionEvent>,
    counters: Seq<nat>,
    plaintexts: Seq<Seq<u8>>,
) -> bool {
    &&& events.len() == counters.len() == plaintexts.len()
    &&& forall|k: int|
        #![trigger events[k]]
        0 <= k < events.len() ==> (events[k] matches SessionEvent::Received(message)
            ==> session.recv_nonce <= counters[k] < u64::MAX && message_formed(
            message,
            session.key,
            session.recv_prefix,
            counters[k],
            plaintexts[k],
        ))
    &&& forall|k: int, l: int|
        #![trigger events[k], events[l]]
        0 <= k < l < events.len() && events[k] is Received && events[l] is Received ==> counters[k]
            < counters[l]
}

/// While such a run goes on, no command still to come is below what the session accepts.
proof fn lemma_never_ahead(
    session: Session,
    events: Seq<SessionEvent>,
    counters: Seq<nat>,
    plaintexts: Seq<Seq<u8>>,
    i: int,
    j: int,
)
    requires
        sealed_in_order(session, events, counters, plaintexts),
        0 <= i <= j < events.len(),
        events[j] is Received,
    ensures
        session.run(events.take(i)).recv_nonce <= counters[j],
    decreases i,
{
    if i == 0 {
        assert(events.take(0) =~= Seq::<SessionEvent>::empty());
    } else {
        lemma_run_step(session, events, i - 1);
        lemma_never_ahead(session, events, counters, plaintexts, i - 1, j);
        if events[i - 1] is Received {
            assert(counters[i - 1] < counters[j]);
        }
    }
}

/// Commands that were sealed in order are all accepted, each with the content that was
/// sealed, whatever is sent in between.
pub proof fn law_messages_arrive(
    session: Session,
    events: Seq<SessionEvent>,
    counters: Seq<nat>,
    plaintexts: Seq<Seq<u8>>,
    i: int,
)
    requires
        sealed_in_order(session, events, counters, plaintexts),
        0 <= i < events.len(),
        events[i] is Received,
    ensures
        session.run(events.take(i)).verdict(events[i]->Received_0) == Verdict::Accepted(
            plaintexts[i],
        ),
        session.run(events.take(i + 1)).recv_nonce == counters[i] + 1,
{
    law_sessions_move_forward(session, events.take(i));
    lemma_never_ahead(session, events, counters, plaintexts, i, i);
    lemma_run_step(session, events, i);
}

/// Messages with different counters use different cipher nonces.
pub proof fn law_counters_separate_nonces(prefix: Seq<u8>, first: Seq<u8>, second: Seq<u8>)
    requires
        prefix.len() == 16,
        first.len() == 8,
        second.len() == 8,
        be_value(first) != be_value(second),
    ensures
        aead_nonce(prefix + first) != aead_nonce(prefix + second),
{
    let left = prefix + first;
    let right = prefix + second;
    if aead_nonce(left) == aead_nonce(right) {
        assert forall|i: int| 0 <= i < 8 implies first[i] == second[i] by {
            assert(aead_nonce(left)[i + 4] == first[i]);
            assert(aead_nonce(right)[i + 4] == second[i]);
        }
        assert(first =~= second);
    }
}

impl Session {
    /// The state after a number of messages was sealed.
    pub open spec fn sent_times(self, times: nat) -> Session
        decreases times,
    {
        if times == 0 {
            self
        } else {
            self.sent_times((times - 1) as nat).sent()
        }
    }
}

/// Each message counts the sender's counter up by one, and nothing else about the session
/// changes.
pub proof fn law_sending_counts_up(session: Session, times: nat)
    requires
        session.send_nonce + times <= u64::MAX,
    ensures
        session.sent_times(times) == (Session {
            send_nonce: (session.send_nonce + times) as u64,
            ..session
        }),
    decreases times,
{
    if times > 0 {
        law_sending_counts_up(session, (times - 1) as nat);
    }
}

/// No two messages that a session seals share a cipher nonce.
pub proof fn law_sent_messages_have_distinct_nonces(
    session: Session,
    i: nat,
    j: nat,
    first: Seq<u8>,
    second: Seq<u8>,
    first_text: Seq<u8>,
    second_text: Seq<u8>,
)
    requires
        i < j,
        session.send_nonce + j < u64::MAX,
        session.send_prefix.len() == 16,
        message_formed(
            first,
            session.key,
            session.send_prefix,
            session.sent_times(i).send_nonce as nat,
            first_text,
        ),
        message_formed(
            second,
            session.key,
            session.send_prefix,
            session.sent_times(j).send_nonce as nat,
            second_text,
        ),
    ensures
        aead_nonce(session.send_prefix + message_counter_bytes(first)) != aead_nonce(
            session.send_prefix + message_counter_bytes(second),
        ),
{
    law_sending_counts_up(session, i);
    law_sending_counts_up(session, j);
    law_counters_separate_nonces(
        session.send_prefix,
        message_counter_bytes(first),
        message_counter_bytes(second),
    );
}

/// Under one session secret, messages of the client, messages of the server, the INITIATE
/// box and the READY box never share a cipher nonce.
pub proof fn law_purposes_separate_nonces(first: Seq<u8>, second: Seq<u8>)
    requires
        first.len() == 8,
        second.len() == 8,
    ensures
        aead_nonce(CURVE_CLIENT_MESSAGE_PREFIX@ + first) != aead_nonce(
            CURVE_SERVER_MESSAGE_PREFIX@ + second,
        ),
        aead_nonce(CURVE_CLIENT_MESSAGE_PREFIX@ + first) != aead_nonce(
            CURVE_INITIATE_NONCE_PREFIX@ + second,
        ),
        aead_nonce(CURVE_CLIENT_MESSAGE_PREFIX@ + first) != aead_nonce(
            CURVE_READY_NONCE_PREFIX@ + second,
        ),
        aead_nonce(CURVE_SERVER_MESSAGE_PREFIX@ + first) != aead_nonce(
            CURVE_INITIATE_NONCE_PREFIX@ + second,
        ),
        aead_nonce(CURVE_SERVER_MESSAGE_PREFIX@ + first) != aead_nonce(
            CURVE_READY_NONCE_PREFIX@ + second,
        ),
        aead_nonce(CURVE_INITIATE_NONCE_PREFIX@ + first) != aead_nonce(
            CURVE_READY_NONCE_PREFIX@ + second,
        ),
{
    let client = CURVE_CLIENT_MESSAGE_PREFIX@;
    let server = CURVE_SERVER_MESSAGE_PREFIX@;
    let initiate = CURVE_INITIATE_NONCE_PREFIX@;
    let ready = CURVE_READY_NONCE_PREFIX@;
    assert(aead_nonce(client + first)[3] == 67);
    assert(aead_nonce(server + first)[3] == 83);
    assert(aead_nonce(server + second)[3] == 83);
    assert(aead_nonce(initiate + first)[3] == 69);
    assert(aead_nonce(initiate + second)[3] == 69);
    assert(aead_nonce(ready + second)[3] == 45);
}

} // verus!
