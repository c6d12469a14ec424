//! A small publish/subscribe messaging engine modelled on MQTT 3.1.1.
//!
//! The crate performs no I/O. It holds the byte-exact packet codec, the
//! client's connection state machine with its command layer, and the
//! broker's per-connection rules. A caller owns the sockets: it asks the
//! engine what to send, sends it, and hands what came back to the engine.

pub mod buffer;
pub mod client;
pub mod codec;
pub mod error;
pub mod laws;
pub mod mode;
pub mod packet;
pub mod patterns;
pub mod protocol;
pub mod server;
pub mod text;
