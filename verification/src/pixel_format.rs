//! Conversion of decoded pixel data into the engine's video frame. Only
//! the planar YUV 4:2:0 family has a conversion; a frame of any other
//! format is passed through with empty planes and its original format tag,
//! so the pipeline does not stall and the renderer can recognize and skip
//! it.

use vstd::prelude::*;

use crate::decoder::{pts_math_ok, spec_pts_millis, VideoFrame, VideoSummary};

verus! {

/// The pixel format tag of planar YUV 4:2:0, matching the decoding
/// library's numbering; the one format with an implemented conversion.
pub const PIXEL_FORMAT_YUV420P: i32 = 0;

/// Build the engine's video frame from one decoded frame's plane bytes.
/// For planar YUV 4:2:0 the three planes are carried over verbatim; any
/// other format yields an empty-payload frame tagged with its original
/// format. The millisecond timestamp comes from the retained stream's
/// timebase.
pub fn parse_video_frame(
    format: i32,
    y_plane: Vec<u8>,
    u_plane: Vec<u8>,
    v_plane: Vec<u8>,
    width: usize,
    height: usize,
    pts: i64,
    summary: &VideoSummary,
) -> (frame: VideoFrame)
    requires
        pts_math_ok(pts, summary.timebase_num, summary.timebase_den),
        width * height <= usize::MAX,
        format == PIXEL_FORMAT_YUV420P ==> {
            &&& y_plane@.len() == width * height
            &&& u_plane@.len() == (width * height) / 4
            &&& v_plane@.len() == (width * height) / 4
        },
    ensures
        frame.format == format,
        frame.width == width,
        frame.height == height,
        frame.pts == pts,
        frame.pts_millis == spec_pts_millis(pts, summary.timebase_num, summary.timebase_den),
        frame.data@.len() == 8,
        format == PIXEL_FORMAT_YUV420P ==> {
            &&& frame.data@[0] == y_plane
            &&& frame.data@[1] == u_plane
            &&& frame.data@[2] == v_plane
            &&& forall|i: int| 3 <= i < 8 ==> #[trigger] frame.data@[i]@.len() == 0
        },
        format != PIXEL_FORMAT_YUV420P ==> forall|i: int|
            0 <= i < 8 ==> #[trigger] frame.data@[i]@.len() == 0,
{
    proof {
        let p = pts as int;
        let num = summary.timebase_num as int;
        assert(1000 * p * num >= 1000 * p) by (nonlinear_arith)
            requires
                p >= 0,
                num >= 1,
        ;
    }
    let pts_millis: i64 = 1000 * pts * (summary.timebase_num as i64) / (summary.timebase_den
        as i64);
    if format == PIXEL_FORMAT_YUV420P {
        VideoFrame {
            format,
            data: [
                y_plane,
                u_plane,
                v_plane,
                Vec::new(),
                Vec::new(),
                Vec::new(),
                Vec::new(),
                Vec::new(),
            ],
            width,
            height,
            pts,
            pts_millis,
        }
    } else {
        VideoFrame {
            format,
            data: [
                Vec::new(),
                Vec::new(),
                Vec::new(),
                Vec::new(),
                Vec::new(),
                Vec::new(),
                Vec::new(),
                Vec::new(),
            ],
            width,
            height,
            pts,
            pts_millis,
        }
    }
}

} // verus!
