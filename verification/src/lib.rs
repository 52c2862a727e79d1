//! Channels that keep only the most recently sent state.
//!
//! Unlike a queue-backed channel, a latest-value channel never buffers: a
//! send overwrites any unread update, so the receiver always observes the
//! freshest state and nothing older. Two variants are provided:
//!
//! * [`value`] carries a single overwritable value per channel;
//! * [`map`] carries one overwritable value per key, drained as a batch.
//!
//! Each channel is a pair of handles built by a `channel()` factory: a
//! cloneable `Sender` and a single `Receiver`, sharing one lock-guarded
//! storage cell. Handles detect a vanished counterpart and then report the
//! channel as closed; a failed send always hands the value back.

mod sync;

pub mod map;
pub mod value;

pub use sync::GuardBroken;
pub use sync::GuardDenied;
