//! Core of a motion-to-audio feedback tool: pointer motion deltas are
//! quantized into discrete intensity levels on a log scale, a playback gate
//! enforces that only one clip sounds at a time, and a clip bank maps each
//! level to one pre-loaded audio clip.
//!
//! Motion is measured in integer milli-units (one thousandth of a device
//! unit), so the whole mapping is exact integer arithmetic.

pub mod bank;
pub mod dispatch;
pub mod gate;
pub mod quantizer;
