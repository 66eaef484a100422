//! Core of a media playback engine: an append-only stereo sample store shared
//! between a decode thread and a real-time audio pull callback, a converter
//! from codec timestamps to wall-clock offsets, a scheduler that interleaves
//! two ordered packet queues by comparing their head timestamps, and the
//! end-of-stream coordination that keeps a session alive until the audio sink
//! has drained the last sample.

pub mod audiobuffer;
pub mod error;
pub mod scheduler;
pub mod session;
pub mod timing;
