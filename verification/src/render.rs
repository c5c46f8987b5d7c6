use vstd::prelude::*;
use crate::sample_tracker::{push_capped, SampleTracker};

verus! {

/// Lays one stereo sample pair out over an output frame, as the render
/// callback does for every frame it is handed: even-indexed channels carry
/// the left sample, odd-indexed ones the right, and the frame's left value
/// is recorded once in the capture ring. Samples are the raw 64-bit
/// representation the backend's conversion produced; nothing here inspects
/// them. The frame buffer belongs to the caller and is reused from frame to
/// frame, so this path allocates nothing of its own.
pub fn write_frame(
    tracker: &mut SampleTracker,
    frame: &mut Vec<u64>,
    left: u64,
    right: u64,
    channels: usize,
)
    requires
        old(tracker).wf(),
    ensures
        final(frame)@.len() == channels,
        forall|i: int| 0 <= i < channels ==> final(frame)@[i] == if i % 2 == 0 {
            left
        } else {
            right
        },
        final(tracker)@ == if channels >= 1 {
            push_capped(old(tracker)@, left)
        } else {
            old(tracker)@
        },
        final(tracker).wf(),
{
    frame.clear();
    if channels >= 1 {
        tracker.add_sample(left);
    }
    let mut c: usize = 0;
    while c < channels
        invariant
            c <= channels,
            frame@.len() == c,
            forall|i: int| 0 <= i < c ==> frame@[i] == if i % 2 == 0 {
                left
            } else {
                right
            },
        decreases channels - c,
    {
        if c % 2 == 0 {
            frame.push(left);
        } else {
            frame.push(right);
        }
        c = c + 1;
    }
}

} // verus!
