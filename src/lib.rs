//! Streaming audio framing for speech recognition: RIFF/WAVE decoding, audio chunk
//! events, a sliding-window framer, and the decisions of the live pipeline's driver.
use vstd::prelude::*;

pub mod riff_wave;
pub mod sliding_window;
pub mod events;
pub mod transcription;
pub mod pipeline;

verus! {

} // verus!
