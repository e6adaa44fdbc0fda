//! What the indicator lights show of the settings.

use crate::configuration::{ChordCleanup, NotePriority};
use crate::time::Duration;
use vstd::prelude::*;

verus! {

/// How long the light of the note priority stays dark between two runs of
/// blinks, and how long one run of blinks lasts, in microseconds.
pub const BLINK_SLEEP_MICROS: u64 = 1_000_000;

/// How often the light blinks for `priority`: once for the first value of
/// the setting, twice for the second, and so on.
pub open spec fn blinks(priority: NotePriority) -> int {
    priority.place() + 1
}

/// How many frames the animation of the light has for `priority`: one lit
/// frame for each blink, and a dark one between each two.
pub fn animation_frames(priority: NotePriority) -> (frames: u8)
    ensures
        frames == 2 * blinks(priority) - 1,
{
    let blink_count: u8 = priority.index() + 1;
    blink_count * 2 - 1
}

/// How long one frame of the animation lasts for `priority`: the run of
/// blinks is split evenly among the frames.
pub fn frame_duration(priority: NotePriority) -> (frame: Duration)
    ensures
        frame@ == BLINK_SLEEP_MICROS as int / (2 * blinks(priority) - 1),
{
    let frames: u64 = animation_frames(priority) as u64;
    Duration::from_micros(BLINK_SLEEP_MICROS / frames)
}

/// Whether the light of the chord cleanup is lit: it is while note events
/// are batched.
pub fn chord_cleanup_light(policy: ChordCleanup) -> (lit: bool)
    ensures
        lit == (policy != ChordCleanup::Disabled),
{
    policy.is_enabled()
}

} // verus!
