//! When the orbiting camera may follow the pointer.

use vstd::prelude::*;
use std::collections::VecDeque;

verus! {

/// Frames that are remembered.
pub const FRAMES: usize = 4;

/// For each of the last frames, oldest first, whether the controls wanted the
/// pointer in it.
pub struct BoolBuf(pub VecDeque<bool>);

impl Default for BoolBuf {
    fn default() -> (buffer: BoolBuf)
        ensures
            buffer.0@ == Seq::new(FRAMES as nat, |i: int| false),
    {
        let mut frames: VecDeque<bool> = VecDeque::new();
        let mut count: usize = 0;
        while count < FRAMES
            invariant
                count <= FRAMES,
                frames@ == Seq::new(count as nat, |i: int| false),
            decreases FRAMES - count,
        {
            frames.push_back(false);
            count = count + 1;
        }
        BoolBuf(frames)
    }
}

/// What is remembered after a frame in which the controls wanted the pointer
/// or not: the oldest frame is forgotten and this one comes last.
pub open spec fn remembered(before: Seq<bool>, wants_pointer: bool) -> Seq<bool> {
    if before.len() > 0 {
        before.drop_first().push(wants_pointer)
    } else {
        before.push(wants_pointer)
    }
}

/// Takes note of whether the controls want the pointer in this frame, and
/// says whether the camera may follow it: only when the controls have not
/// wanted it in any frame that is remembered.
pub fn disable_camera(wants_pointer: bool, before: &mut BoolBuf) -> (enabled: bool)
    ensures
        final(before).0@ == remembered(old(before).0@, wants_pointer),
        enabled == !final(before).0@.contains(true),
{
    before.0.pop_front();
    before.0.push_back(wants_pointer);
    let mut frame: usize = 0;
    while frame < before.0.len()
        invariant
            before.0@ == remembered(old(before).0@, wants_pointer),
            frame <= before.0@.len(),
            forall|seen: int| 0 <= seen < frame ==> !before.0@[seen],
        decreases before.0@.len() - frame,
    {
        if before.0[frame] {
            return false;
        }
        frame = frame + 1;
    }
    true
}

} // verus!
