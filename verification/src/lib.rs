//! A dynamically extensible audio sample queue.
//!
//! A single logical audio stream is assembled on the fly from an ordered
//! sequence of independently produced sample sources. A producer-side
//! controller appends sources and issues play/pause/stop/skip commands
//! through two non-blocking message channels; the consumer side drains the
//! channels on every sample request and produces the next output sample.

pub mod laws;
pub mod queue2;
pub mod source;
