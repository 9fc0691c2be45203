//! A cancellable streaming relay for chat exchanges with a model backend.
//!
//! The relay is a state machine: the host performs the outside work (opening
//! the stream, awaiting a chunk, notifying its listener) and reports what
//! happened; the machine decides what is done next.
//!
//! - `message`: the turns of a conversation and the notification of a chunk.
//! - `cancel`: the cancellation flag.
//! - `relay`: one exchange, from its request to its outcome.
//! - `session`: the state that all exchanges share, which admits one exchange
//!   at a time.
//! - `trace`: what holds of every course a session can take.

pub mod cancel;
pub mod message;
pub mod relay;
pub mod session;
pub mod trace;
