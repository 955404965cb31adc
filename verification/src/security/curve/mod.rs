//! CURVE encryption mechanism
//!
//! CURVE gives a connection public-key authentication and encryption: X25519 key agreement
//! and ChaCha20-Poly1305 boxes.
//!
//! ```text
//! Client                                Server
//!   |--- HELLO (client ephemeral key) --->|
//!   |<-- WELCOME (server ephemeral key,   |
//!   |             cookie) ----------------|
//!   |--- INITIATE (cookie, vouch for the  |
//!   |              client's key) -------->|
//!   |<-- READY (confirmation) ------------|
//!   |<=== encrypted MESSAGE commands ====>|
//! ```
//!
//! Nothing here performs input or output. `CurveClient::handshake` and
//! `CurveServer::handshake` are told what was read, and answer with what to write or read
//! next. One module per command says what the command holds (`*_sent`) and when it is
//! accepted (`*_read`); `laws`, `run_laws` and `session_laws` relate the two sides,
//! `byte_laws` and `step_laws` say what each command and each step is in the plainest terms.

pub mod auth;
pub mod byte_laws;
pub mod cipher;
pub mod client;
pub mod drawn;
pub mod error;
pub mod hello;
pub mod initiate;
pub mod keys;
pub mod laws;
pub mod message;
pub mod primitives;
pub mod ready;
pub mod run_laws;
pub mod server;
pub mod session_laws;
pub mod step;
pub mod step_laws;
pub mod welcome;
pub mod wire;

pub use auth::{create_curve_zap_request, curve_server_handshake_zap};
pub use client::CurveClient;
pub use error::CurveError;
pub use keys::{CurveKeyPair, CurvePublicKey, CurveSecretKey, CurveSharedSecret};
pub use server::CurveServer;
pub use wire::{CURVE_BOX_OVERHEAD, CURVE_KEY_SIZE, CURVE_NONCE_SIZE};
