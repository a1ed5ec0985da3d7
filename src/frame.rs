//! Decoded audio frames and their playback time.
use vstd::prelude::*;

verus! {

/// Time taken off each frame's sleep so that scheduling jitter does not leave
/// audible gaps between frames.
pub const FRAME_SLEEP_MARGIN_MS: u64 = 2;

/// One decoded frame: interleaved PCM samples with their channel count and
/// sample rate.
pub struct AudioFrame {
    pub data: Vec<i16>,
    pub channels: usize,
    pub sample_rate: u32,
}

/// Whole milliseconds that `samples` interleaved samples of `channels`
/// channels last at `sample_rate` samples per second, capped at the largest
/// `u64`; zero when there are no channels or no rate.
pub open spec fn frame_ms(samples: nat, channels: nat, sample_rate: nat) -> u64 {
    if channels == 0 || sample_rate == 0 {
        0
    } else if samples * 1000 / (channels * sample_rate) > u64::MAX {
        u64::MAX
    } else {
        (samples * 1000 / (channels * sample_rate)) as u64
    }
}

/// How long a loop sleeps after handing a frame of `duration_ms` to the
/// output: the frame's time less the margin, never below zero.
pub open spec fn sleep_ms(duration_ms: u64) -> u64 {
    if duration_ms < FRAME_SLEEP_MARGIN_MS {
        0
    } else {
        (duration_ms - FRAME_SLEEP_MARGIN_MS) as u64
    }
}

/// Playback time of `sample_count` interleaved samples, as [`frame_ms`]
/// gives it.
pub fn frame_duration_ms(sample_count: usize, channels: usize, sample_rate: u32) -> (r: u64)
    ensures
        r == frame_ms(sample_count as nat, channels as nat, sample_rate as nat),
{
    if channels == 0 || sample_rate == 0 {
        return 0;
    }
    let n = sample_count as u128;
    let c = channels as u128;
    let s = sample_rate as u128;
    assert(n * 1000 <= u128::MAX) by (nonlinear_arith)
        requires
            n <= usize::MAX,
    ;
    assert(c * s <= u128::MAX) by (nonlinear_arith)
        requires
            c <= usize::MAX,
            s <= u32::MAX,
    ;
    assert(c * s > 0) by (nonlinear_arith)
        requires
            c > 0,
            s > 0,
    ;
    let ms = (n * 1000) / (c * s);
    if ms > u64::MAX as u128 {
        u64::MAX
    } else {
        ms as u64
    }
}

/// Time to sleep after a frame of `duration_ms`, as [`sleep_ms`] gives it.
pub fn frame_sleep_ms(duration_ms: u64) -> (r: u64)
    ensures
        r == sleep_ms(duration_ms),
{
    duration_ms.saturating_sub(FRAME_SLEEP_MARGIN_MS)
}

/// Playback time of a frame.
pub trait FrameDuration {
    /// Milliseconds the frame lasts.
    spec fn duration_spec(&self) -> u64;

    /// Returns how many milliseconds the frame lasts.
    fn get_duration(&self) -> (r: u64)
        ensures
            r == self.duration_spec(),
    ;
}

impl FrameDuration for AudioFrame {
    open spec fn duration_spec(&self) -> u64 {
        frame_ms(self.data@.len(), self.channels as nat, self.sample_rate as nat)
    }

    fn get_duration(&self) -> (r: u64) {
        frame_duration_ms(self.data.len(), self.channels, self.sample_rate)
    }
}

} // verus!
