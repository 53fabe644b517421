use vstd::prelude::*;
use crate::sliding_window::{frame_at, SlidingWindow};

verus! {

/// Samples in each frame of the live pipeline: ten seconds at 16 kHz.
pub const STREAM_WINDOW_SAMPLES: usize = 160000;

/// Samples by which each frame of the live pipeline advances.
pub const STREAM_HOP_SAMPLES: usize = 4000;

/// Milliseconds the driver waits before polling again when no frame is ready.
pub const POLL_INTERVAL_MS: u64 = 1;

/// What the driver of the live pipeline does next.
#[derive(Debug)]
pub enum DriverAction<T> {
    /// Transcribe this frame and pass the text on.
    Transcribe(Vec<T>),
    /// Wait this many milliseconds, yield, and poll again.
    Wait(u64),
    /// The input has ended and every frame has been handed out.
    Stop,
}

/// The framer of the live pipeline.
pub fn stream_window<T: Copy>() -> (r: SlidingWindow<T>)
    ensures
        r.wf(),
        r.window() == STREAM_WINDOW_SAMPLES,
        r.hop() == STREAM_HOP_SAMPLES,
        r.input() == Seq::<T>::empty(),
        r.emitted() == 0,
{
    SlidingWindow::new(STREAM_WINDOW_SAMPLES, STREAM_HOP_SAMPLES)
}

/// One turn of the driver: take the next frame if one is ready; otherwise stop once
/// the input has ended, or wait.
pub fn driver_step<T: Copy>(window: &mut SlidingWindow<T>, input_ended: bool) -> (r: DriverAction<
    T,
>)
    requires
        old(window).wf(),
    ensures
        final(window).wf(),
        old(window).pending() >= old(window).window() <==> r is Transcribe,
        r matches DriverAction::Transcribe(frame) ==> {
            &&& frame@ == frame_at(
                old(window).input(),
                old(window).emitted(),
                old(window).window(),
                old(window).hop(),
            )
            &&& final(window).emitted() == old(window).emitted() + 1
            &&& final(window).input() == old(window).input()
            &&& final(window).buffered() == old(window).buffered().subrange(
                old(window).hop() as int,
                old(window).buffered().len() as int,
            )
            &&& final(window).window() == old(window).window()
            &&& final(window).hop() == old(window).hop()
        },
        r is Wait ==> r == DriverAction::<T>::Wait(POLL_INTERVAL_MS) && !input_ended,
        r is Stop ==> input_ended,
        !(r is Transcribe) ==> *final(window) == *old(window),
{
    match window.poll_next() {
        Some(frame) => DriverAction::Transcribe(frame),
        None => if input_ended {
            DriverAction::Stop
        } else {
            DriverAction::Wait(POLL_INTERVAL_MS)
        },
    }
}

} // verus!
