//! Conversion of decoded audio data into the engine's audio frame. The
//! decoder hands planar stereo sample data out as two equal-length byte
//! buffers; they are interleaved sample by sample into one buffer, and the
//! frame records the volume register read at build time — which is why a
//! volume change reaches only frames decoded after it.

use vstd::prelude::*;

use crate::decoder::{pts_math_ok, spec_pts_millis, AudioFrame, AudioSummary};
use crate::global::ControlRegisters;

verus! {

/// Bytes per sample as the decoder delivers them.
pub const SAMPLE_BYTES: usize = 4;

/// Two planar channels interleaved sample by sample: one sample from the
/// left plane, then one from the right, through both planes.
pub open spec fn spec_interleaved(left: Seq<u8>, right: Seq<u8>) -> Seq<u8>
    decreases left.len(),
{
    if left.len() < SAMPLE_BYTES {
        Seq::empty()
    } else {
        let cut = left.len() - SAMPLE_BYTES;
        spec_interleaved(left.take(cut as int), right.take(right.len() - SAMPLE_BYTES))
            + left.skip(cut as int) + right.skip(right.len() - SAMPLE_BYTES)
    }
}

/// Interleave two equal-length planar channels into one buffer, sample by
/// sample.
pub fn interleave_stereo(left: &Vec<u8>, right: &Vec<u8>) -> (data: Vec<u8>)
    requires
        left@.len() == right@.len(),
        left@.len() % (SAMPLE_BYTES as nat) == 0,
    ensures
        data@ == spec_interleaved(left@, right@),
        data@.len() == left@.len() + right@.len(),
{
    let mut data: Vec<u8> = Vec::new();
    let samples: usize = left.len() / SAMPLE_BYTES;
    proof {
        assert(SAMPLE_BYTES * (left@.len() as int / SAMPLE_BYTES as int) == left@.len()) by {
            vstd::arithmetic::div_mod::lemma_fundamental_div_mod(
                left@.len() as int,
                SAMPLE_BYTES as int,
            );
        }
    }
    for i in 0..samples
        invariant
            left@.len() == right@.len(),
            left@.len() <= usize::MAX,
            samples * SAMPLE_BYTES == left@.len(),
            data@ == spec_interleaved(
                left@.take((i * SAMPLE_BYTES) as int),
                right@.take((i * SAMPLE_BYTES) as int),
            ),
            data@.len() == 2 * i * SAMPLE_BYTES,
    {
        proof {
            assert((i as int) * (SAMPLE_BYTES as int) + SAMPLE_BYTES <= left@.len())
                by (nonlinear_arith)
                requires
                    (i as int) < (samples as int),
                    (samples as int) * (SAMPLE_BYTES as int) == left@.len(),
            ;
        }
        let base: usize = i * SAMPLE_BYTES;
        data.push(left[base]);
        data.push(left[base + 1]);
        data.push(left[base + 2]);
        data.push(left[base + 3]);
        data.push(right[base]);
        data.push(right[base + 1]);
        data.push(right[base + 2]);
        data.push(right[base + 3]);
        proof {
            let next = (base + SAMPLE_BYTES) as int;
            assert(left@.take(next).take(base as int) =~= left@.take(base as int));
            assert(right@.take(next).take(base as int) =~= right@.take(base as int));
            assert(left@.take(next).skip(base as int) =~= left@.subrange(
                base as int,
                base + SAMPLE_BYTES,
            ));
            assert(right@.take(next).skip(base as int) =~= right@.subrange(
                base as int,
                base + SAMPLE_BYTES,
            ));
            assert(data@ =~= spec_interleaved(left@.take(next), right@.take(next)));
        }
    }
    proof {
        assert(left@.take((samples * SAMPLE_BYTES) as int) =~= left@);
        assert(right@.take((samples * SAMPLE_BYTES) as int) =~= right@);
    }
    data
}

/// Build the engine's audio frame from one decoded frame's planar stereo
/// data: interleave the two planes, convert the timestamp to milliseconds
/// through the retained stream's timebase, and record the volume register
/// as it stands now. Frames built earlier keep the gain they were built
/// with.
pub fn parse_audio_frame(
    format: i32,
    left: &Vec<u8>,
    right: &Vec<u8>,
    pts: i64,
    sample_rate: i32,
    channels: u8,
    channel_layout: u8,
    summary: &AudioSummary,
    registers: &ControlRegisters,
) -> (frame: AudioFrame)
    requires
        left@.len() == right@.len(),
        left@.len() % (SAMPLE_BYTES as nat) == 0,
        pts_math_ok(pts, summary.timebase_num, summary.timebase_den),
    ensures
        frame.format == format,
        frame.data@ == spec_interleaved(left@, right@),
        frame.pts == pts,
        frame.pts_millis == spec_pts_millis(pts, summary.timebase_num, summary.timebase_den),
        frame.sample_rate == sample_rate,
        frame.channels == channels,
        frame.channel_layout == channel_layout,
        frame.volume == registers.volume,
{
    proof {
        let p = pts as int;
        let num = summary.timebase_num as int;
        assert(1000 * p * num >= 1000 * p) by (nonlinear_arith)
            requires
                p >= 0,
                num >= 1,
        ;
    }
    let pts_millis: i64 = 1000 * pts * (summary.timebase_num as i64) / (summary.timebase_den
        as i64);
    let data = interleave_stereo(left, right);
    AudioFrame {
        format,
        data,
        pts,
        pts_millis,
        sample_rate,
        channels,
        channel_layout,
        volume: registers.volume,
    }
}

/// Law: volume register changes are not retroactive. A frame records the
/// register value read when it was built; pushing it into a buffer and
/// changing the register afterwards leaves every queued frame — the new
/// one and those before it — exactly as it was, so only frames built
/// after the change carry the new gain.
pub proof fn lemma_volume_non_retroactive(
    queued: Seq<AudioFrame>,
    built: AudioFrame,
    volume_at_build: i16,
    register_later: i16,
)
    requires
        built.volume == volume_at_build,
    ensures
        queued.push(built).last().volume == volume_at_build,
        forall|i: int| 0 <= i < queued.len() ==> queued.push(built)[i] == queued[i],
{
}

} // verus!
