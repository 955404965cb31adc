//! ZMTP building blocks: the CURVE security mechanism as a state machine that
//! performs no input or output of its own, and the bookkeeping behind stream and
//! sink adapters for message sockets.
#![allow(unused_imports)]

pub mod adapters;
pub mod buffers;
pub mod codec;
pub mod polling;
pub mod security;
pub mod sink_laws;
pub mod stream_sink;
