//! Engine-wide constants and the shared control registers: the play clock
//! and the volume register, which every component reads through one
//! explicitly passed context value.

use vstd::prelude::*;

verus! {

/// Forward or rewind amount for one transport step, in milliseconds.
pub const FR_STEP: i64 = 10000;
/// Amount the volume register moves per adjustment step.
pub const VOLUME_STEP: i16 = 10;
/// Upper bound of the volume register.
pub const MAX_VOLUME: i16 = 2000;
/// Value the volume register starts at.
pub const INIT_VOLUME: i16 = 50;

/// Frame buffer depth for audio; the deepest of the three, since listeners
/// notice audio gaps sooner than video gaps.
pub const AUDIO_BUFFER_CAPACITY: usize = 50;
/// Frame buffer depth for video.
pub const VIDEO_BUFFER_CAPACITY: usize = 10;
/// Frame buffer depth for subtitles; the shallowest.
pub const SUBTITLE_BUFFER_CAPACITY: usize = 5;

/// The process-wide control registers: the authoritative play clock and the
/// target volume. The clock is `-1` while a seek is in flight, otherwise the
/// presentation time in milliseconds of the last audio frame handed out.
pub struct ControlRegisters {
    /// Play clock, milliseconds; `-1` while a seek is in flight.
    pub pts_millis: i64,
    /// Target volume gain, in `[0, MAX_VOLUME]`.
    pub volume: i16,
}

impl ControlRegisters {
    /// The bound every operation on the volume register preserves.
    pub open spec fn wf(&self) -> bool {
        0 <= self.volume <= MAX_VOLUME
    }

    pub fn new() -> (r: Self)
        ensures
            r.pts_millis == 0,
            r.volume == INIT_VOLUME,
            r.wf(),
    {
        ControlRegisters { pts_millis: 0, volume: INIT_VOLUME }
    }

    /// Raise the volume register by one step, saturating at `MAX_VOLUME`.
    pub fn up_volume(&mut self)
        requires
            old(self).wf(),
        ensures
            final(self).wf(),
            final(self).pts_millis == old(self).pts_millis,
            final(self).volume == if old(self).volume + VOLUME_STEP <= MAX_VOLUME {
                old(self).volume + VOLUME_STEP
            } else {
                MAX_VOLUME as int
            },
    {
        if self.volume + VOLUME_STEP <= MAX_VOLUME {
            self.volume = self.volume + VOLUME_STEP;
        } else {
            self.volume = MAX_VOLUME;
        }
    }

    /// Lower the volume register by one step; below one step it is left as
    /// it stands, so it never goes negative.
    pub fn down_volume(&mut self)
        requires
            old(self).wf(),
        ensures
            final(self).wf(),
            final(self).pts_millis == old(self).pts_millis,
            final(self).volume == if old(self).volume >= VOLUME_STEP {
                old(self).volume - VOLUME_STEP
            } else {
                old(self).volume as int
            },
    {
        if self.volume >= VOLUME_STEP {
            self.volume = self.volume - VOLUME_STEP;
        }
    }
}

} // verus!
