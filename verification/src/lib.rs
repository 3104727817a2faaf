//! Time-synchronized audio delivery pipeline.
//!
//! Network-sourced audio chunks, stamped with an origin timestamp in a remote
//! clock domain, are decoded, scheduled against a translated local deadline,
//! and handed to an output device at the moment required for synchronized,
//! gap-free playback — while remaining immediately stoppable, resumable and
//! volume-adjustable on command from a remote controller.
//!
//! All times are microseconds: remote timestamps in the sender's clock
//! domain, local instants on the local monotonic clock. The library is a
//! pure state machine; the caller supplies the current local instant and
//! performs sleeps, device writes and network transfers.

pub mod chunk;
pub mod clock;
pub mod decode;
pub mod engine;
pub mod format;
pub mod queue;
pub mod protocol;
pub mod schedule;
pub mod session;
pub mod volume;
