# monocoque-zmtp

Building blocks of the ZeroMQ message transport protocol, verified with Verus:

- `security::curve`: the CURVE mechanism. The client and the server are state machines that
  perform no input or output. They are told what was read and answer with what to write or
  read next. After the handshake they seal and open messages and refuse replays.
- `security::zap`: requests to and replies from an authentication handler.
- `adapters`, `stream_sink`: the bookkeeping behind stream and sink adapters around a
  message socket.

The crates `bytes`, `x25519-dalek`, `chacha20poly1305` and `rand` are trusted. What is
believed of them stands in `buffers` and in `security::curve::primitives`.

What holds of the whole stands in proof functions named `law_*`:

- `security::curve::laws`: the commands of honest peers are accepted.
- `security::curve::run_laws`: connected honest peers complete the handshake, a client has a
  session only with the server whose key it was given, and a server finishes only with a key
  that was vouched for.
- `security::curve::session_laws`: messages are read back exactly once and in order,
  whatever else is sent and received, and no cipher nonce is used twice.
- `security::curve::auth`: no client is let in but one that completed the handshake and was
  approved.
- `polling`: sinks neither lose nor repeat a message.

`app/` puts the state machines to work on `compio` streams and turns the adapters into
`futures` streams and sinks.
