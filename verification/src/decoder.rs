//! Stream selection and the decode loop's control logic.
//!
//! The surrounding application owns the container and codec handles; it
//! describes each stream of an opened container as a plain [`StreamDesc`]
//! value and performs the container reads, seeks and codec calls that the
//! [`MediaDecoder`] decides on. Everything the loop decides — which stream
//! is retained per kind, the published summaries, the seek protocol, the
//! post-seek settling filter and the backpressure rule — is verified here.

use vstd::prelude::*;

use crate::entity::EventMessage;
use crate::frame_buffer::FrameBuffer;

verus! {

/// How long the decode loop sleeps before retrying when a buffer is full,
/// in milliseconds.
pub const BUFFER_FULL_SLEEP_MILLIS: u64 = 200;
/// The number of decoded frames discarded per kind after a seek, before
/// decoder output is trusted again.
pub const MAX_SKIP_FRAMES: u8 = 5;

/// The media kinds a container stream can carry. A closed set, with an
/// explicit arm for anything unrecognized.
#[derive(Clone, Copy, Debug, PartialEq, Eq, Structural)]
pub enum MediaKind {
    Audio,
    Video,
    Subtitle,
    Data,
    Attachment,
    Nb,
    Unknown,
}

/// What the stream selector reads from one container stream: its index and
/// kind, its timing figures, and the codec parameters of interest. Fields
/// that a kind does not use are left at zero by the caller.
#[derive(Debug, Clone)]
pub struct StreamDesc {
    /// Index of the stream within its container.
    pub index: i32,
    /// Media kind the container reports for the stream.
    pub kind: MediaKind,
    /// Number of frames the container reports; zero or less means the
    /// stream is skipped.
    pub nb_frames: i64,
    /// Total duration in native stream time units.
    pub duration: u64,
    /// Numerator of the stream timebase.
    pub timebase_num: u64,
    /// Denominator of the stream timebase.
    pub timebase_den: u64,
    /// Whether a decoder could be instantiated for the stream's codec.
    pub has_decoder: bool,
    /// Name of that decoder, or empty when there is none.
    pub decoder_name: String,
    /// Audio: number of channels.
    pub channels: u8,
    /// Audio: channel layout bits.
    pub channel_layout: u64,
    /// Audio: samples per second.
    pub sample_rate: i32,
    /// Audio: samples per frame.
    pub frame_size: i32,
    /// Video: pixel width.
    pub width: u32,
    /// Video: pixel height.
    pub height: u32,
}

/// Timing and geometry of the retained video stream, published once per
/// opened container.
#[derive(Debug, Clone, PartialEq, Eq)]
pub struct VideoSummary {
    /// The name of decoder if any
    pub decoder_name: String,
    /// The duration of whole media
    pub duration: u64,
    /// Duration in milliseconds
    pub duration_millis: u64,
    /// Number of frames in media
    pub frames: u64,
    /// Number of timebase
    pub timebase_num: u64,
    /// Denominator of timebase
    pub timebase_den: u64,
    /// The reciprocal of timebase
    pub timebase_inverse: u64,
    /// Play interval with milliseconds
    pub play_interval: u64,
    /// Width of video
    pub width: u32,
    /// Height of video
    pub height: u32,
}

/// Timing and channel layout of the retained audio stream, published once
/// per opened container.
#[derive(Debug, Clone, PartialEq, Eq)]
pub struct AudioSummary {
    /// The name of decoder if any
    pub decoder_name: String,
    /// The duration of whole media
    pub duration: u64,
    /// Duration in milliseconds
    pub duration_millis: u64,
    /// Number of frames in media
    pub frames: u64,
    /// Number of timebase
    pub timebase_num: u64,
    /// Denominator of timebase
    pub timebase_den: u64,
    /// The reciprocal of timebase
    pub timebase_inverse: u64,
    /// Play interval with milliseconds
    pub play_interval: u64,
    /// Number of channels
    pub channels: u8,
    /// Layout of channel, most of the time but not always can be converted with channels
    pub channel_layout: u64,
    /// Samples per second
    pub sample_rate: i32,
    /// How much samples per frame
    pub frame_size: i32,
}

/// Marker for a recognized subtitle stream; subtitles are not decoded.
#[derive(Debug, Clone, PartialEq, Eq, Structural)]
pub struct SubtitleSummary;

/// The retained stream of one kind: whether a decoder exists for it, and
/// its index in the container, if such a stream was found at all.
#[derive(Debug, Clone, Copy, PartialEq, Eq, Structural)]
pub struct StreamInfo {
    /// Whether a decoder could be set up for the stream.
    pub has_decoder: bool,
    /// The stream's index, or nothing when no stream of the kind exists.
    pub index: Option<i32>,
}

impl Default for StreamInfo {
    /// The state before any stream of the kind is found.
    fn default() -> (info: Self)
        ensures
            info.index is None,
            !info.has_decoder,
    {
        StreamInfo { has_decoder: false, index: None }
    }
}

/// One retained stream per kind, as the selector left them.
#[derive(Debug, Clone, PartialEq, Eq)]
pub struct MediaStreams {
    pub audio_stream: StreamInfo,
    pub video_stream: StreamInfo,
    pub subtitle_stream: StreamInfo,
    pub attachment_stream: StreamInfo,
    pub nb_stream: StreamInfo,
    pub data_stream: StreamInfo,
    pub unknown_streams: Vec<StreamInfo>,
}

/// Everything the stream selector produces from one container: the
/// retained streams and the published summaries.
#[derive(Debug, Clone, PartialEq, Eq)]
pub struct StreamSelection {
    pub streams: MediaStreams,
    pub audio_summary: Option<AudioSummary>,
    pub video_summary: Option<VideoSummary>,
    pub subtitle_summary: Option<SubtitleSummary>,
}

/// A stream takes part in selection only if the container reports frames
/// for it.
pub open spec fn stream_usable(s: StreamDesc) -> bool {
    s.nb_frames > 0
}

/// The arithmetic a usable stream's timing must allow: a positive timebase
/// whose reciprocal is at least one, and a duration whose millisecond
/// conversion fits the machine word.
pub open spec fn stream_math_ok(s: StreamDesc) -> bool {
    stream_usable(s) ==> {
        &&& s.timebase_num > 0
        &&& s.timebase_den >= s.timebase_num
        &&& s.duration <= u64::MAX / 1000
    }
}

/// Native time units per second: the reciprocal of the timebase.
pub open spec fn spec_timebase_inverse(s: StreamDesc) -> int {
    s.timebase_den as int / s.timebase_num as int
}

/// Total duration in milliseconds.
pub open spec fn spec_duration_millis(s: StreamDesc) -> int {
    1000 * s.duration as int / spec_timebase_inverse(s)
}

/// Nominal inter-frame interval in milliseconds.
pub open spec fn spec_play_interval(s: StreamDesc) -> int {
    spec_duration_millis(s) / s.nb_frames as int
}

/// The first usable stream of `kind`, scanning the container's streams in
/// order.
pub open spec fn first_usable(streams: Seq<StreamDesc>, kind: MediaKind) -> Option<StreamDesc>
    decreases streams.len(),
{
    if streams.len() == 0 {
        None
    } else {
        let prior = first_usable(streams.drop_last(), kind);
        if prior is Some {
            prior
        } else {
            let last = streams.last();
            if stream_usable(last) && last.kind == kind {
                Some(last)
            } else {
                None
            }
        }
    }
}

/// The stream info the selector retains for `kind`.
pub open spec fn spec_selected_info(streams: Seq<StreamDesc>, kind: MediaKind) -> StreamInfo {
    match first_usable(streams, kind) {
        Some(s) => StreamInfo { has_decoder: s.has_decoder, index: Some(s.index) },
        None => StreamInfo { has_decoder: false, index: None },
    }
}

/// The audio summary computed from one retained stream.
pub open spec fn spec_audio_summary(s: StreamDesc) -> AudioSummary {
    AudioSummary {
        decoder_name: s.decoder_name,
        duration: s.duration,
        duration_millis: spec_duration_millis(s) as u64,
        frames: s.nb_frames as u64,
        timebase_num: s.timebase_num,
        timebase_den: s.timebase_den,
        timebase_inverse: spec_timebase_inverse(s) as u64,
        play_interval: spec_play_interval(s) as u64,
        channels: s.channels,
        channel_layout: s.channel_layout,
        sample_rate: s.sample_rate,
        frame_size: s.frame_size,
    }
}

/// The video summary computed from one retained stream.
pub open spec fn spec_video_summary(s: StreamDesc) -> VideoSummary {
    VideoSummary {
        decoder_name: s.decoder_name,
        duration: s.duration,
        duration_millis: spec_duration_millis(s) as u64,
        frames: s.nb_frames as u64,
        timebase_num: s.timebase_num,
        timebase_den: s.timebase_den,
        timebase_inverse: spec_timebase_inverse(s) as u64,
        play_interval: spec_play_interval(s) as u64,
        width: s.width,
        height: s.height,
    }
}

/// The audio summary the selector publishes, if any.
pub open spec fn spec_selected_audio_summary(streams: Seq<StreamDesc>) -> Option<AudioSummary> {
    match first_usable(streams, MediaKind::Audio) {
        Some(s) => Some(spec_audio_summary(s)),
        None => None,
    }
}

/// The video summary the selector publishes, if any.
pub open spec fn spec_selected_video_summary(streams: Seq<StreamDesc>) -> Option<VideoSummary> {
    match first_usable(streams, MediaKind::Video) {
        Some(s) => Some(spec_video_summary(s)),
        None => None,
    }
}

/// The stream infos of the usable streams of unknown kind, in container
/// order.
pub open spec fn spec_unknown_infos(streams: Seq<StreamDesc>) -> Seq<StreamInfo>
    decreases streams.len(),
{
    if streams.len() == 0 {
        Seq::empty()
    } else {
        let prior = spec_unknown_infos(streams.drop_last());
        let last = streams.last();
        if stream_usable(last) && last.kind == MediaKind::Unknown {
            prior.push(StreamInfo { has_decoder: last.has_decoder, index: Some(last.index) })
        } else {
            prior
        }
    }
}

/// Everything the ensures of [`MediaDecoder::get_streams`] say, gathered in
/// one predicate: each kind retains its first usable stream, the summaries
/// are computed from those streams, and the unknown streams are kept in
/// order.
pub open spec fn selection_matches(sel: StreamSelection, streams: Seq<StreamDesc>) -> bool {
    &&& sel.streams.audio_stream == spec_selected_info(streams, MediaKind::Audio)
    &&& sel.streams.video_stream == spec_selected_info(streams, MediaKind::Video)
    &&& sel.streams.subtitle_stream == spec_selected_info(streams, MediaKind::Subtitle)
    &&& sel.streams.attachment_stream == spec_selected_info(streams, MediaKind::Attachment)
    &&& sel.streams.nb_stream == spec_selected_info(streams, MediaKind::Nb)
    &&& sel.streams.data_stream == spec_selected_info(streams, MediaKind::Data)
    &&& sel.streams.unknown_streams@ == spec_unknown_infos(streams)
    &&& sel.audio_summary == spec_selected_audio_summary(streams)
    &&& sel.video_summary == spec_selected_video_summary(streams)
    &&& sel.subtitle_summary == (match first_usable(streams, MediaKind::Subtitle) {
        Some(_) => Some(SubtitleSummary),
        None => None,
    })
}

/// The decode loop's state: the cooperative stop flag, the two pending
/// seek registers (`-1` meaning no seek is requested), the post-seek drop
/// counters, and what the stream selector retained.
pub struct MediaDecoder {
    /// Cooperative cancellation; checked once per loop iteration.
    pub stop_flag: bool,
    /// Pending audio seek target in native units; `-1` when none.
    pub audio_seek_to: i64,
    /// Pending video seek target in native units; `-1` when none.
    pub video_seek_to: i64,
    /// Audio frames dropped since the last seek; pinned at `u8::MAX` once
    /// settling is over.
    pub audio_dropped_frames: u8,
    /// Video frames dropped since the last seek; pinned at `u8::MAX` once
    /// settling is over.
    pub video_dropped_frames: u8,
    /// The retained stream per kind.
    pub streams: MediaStreams,
    /// Summary of the retained audio stream, if any.
    pub audio_summary: Option<AudioSummary>,
    /// Summary of the retained video stream, if any.
    pub video_summary: Option<VideoSummary>,
    /// Marker for a recognized subtitle stream, if any.
    pub subtitle_summary: Option<SubtitleSummary>,
}

impl MediaDecoder {
    /// Set up the decode state for a freshly opened container whose streams
    /// the caller has described: run stream selection, leave both seek
    /// registers empty and both drop counters settled.
    pub fn new(streams: &Vec<StreamDesc>) -> (decoder: Self)
        requires
            forall|i: int| 0 <= i < streams@.len() ==> stream_math_ok(#[trigger] streams@[i]),
        ensures
            !decoder.stop_flag,
            decoder.audio_seek_to == -1,
            decoder.video_seek_to == -1,
            decoder.audio_dropped_frames == u8::MAX,
            decoder.video_dropped_frames == u8::MAX,
            selection_matches(
                (StreamSelection {
                    streams: decoder.streams,
                    audio_summary: decoder.audio_summary,
                    video_summary: decoder.video_summary,
                    subtitle_summary: decoder.subtitle_summary,
                }),
                streams@,
            ),
    {
        let sel = Self::get_streams(streams);
        MediaDecoder {
            stop_flag: false,
            audio_seek_to: -1,
            video_seek_to: -1,
            audio_dropped_frames: u8::MAX,
            video_dropped_frames: u8::MAX,
            streams: sel.streams,
            audio_summary: sel.audio_summary,
            video_summary: sel.video_summary,
            subtitle_summary: sel.subtitle_summary,
        }
    }

    /// Classify a container's streams: skip any stream without frames,
    /// retain the first usable stream of each kind, and compute the
    /// published summaries from the retained audio and video streams.
    pub fn get_streams(streams: &Vec<StreamDesc>) -> (sel: StreamSelection)
        requires
            forall|i: int| 0 <= i < streams@.len() ==> stream_math_ok(#[trigger] streams@[i]),
        ensures
            selection_matches(sel, streams@),
    {
        let mut sel = StreamSelection {
            streams: MediaStreams {
                audio_stream: StreamInfo::default(),
                video_stream: StreamInfo::default(),
                subtitle_stream: StreamInfo::default(),
                attachment_stream: StreamInfo::default(),
                nb_stream: StreamInfo::default(),
                data_stream: StreamInfo::default(),
                unknown_streams: Vec::new(),
            },
            audio_summary: None,
            video_summary: None,
            subtitle_summary: None,
        };
        let n: usize = streams.len();
        for i in 0..n
            invariant
                n == streams@.len(),
                selection_matches(sel, streams@.take(i as int)),
                forall|j: int| 0 <= j < streams@.len() ==> stream_math_ok(#[trigger] streams@[j]),
        {
            proof {
                assert(streams@.take(i + 1).drop_last() =~= streams@.take(i as int));
            }
            let s = &streams[i];
            if s.nb_frames > 0 {
                let info = StreamInfo { has_decoder: s.has_decoder, index: Some(s.index) };
                match s.kind {
                    MediaKind::Audio => {
                        if sel.streams.audio_stream.index.is_none() {
                            sel.streams.audio_stream = info;
                            sel.audio_summary = Some(Self::audio_summary_for(s));
                        }
                    },
                    MediaKind::Video => {
                        if sel.streams.video_stream.index.is_none() {
                            sel.streams.video_stream = info;
                            sel.video_summary = Some(Self::video_summary_for(s));
                        }
                    },
                    MediaKind::Subtitle => {
                        if sel.streams.subtitle_stream.index.is_none() {
                            sel.streams.subtitle_stream = info;
                            sel.subtitle_summary = Some(SubtitleSummary);
                        }
                    },
                    MediaKind::Attachment => {
                        if sel.streams.attachment_stream.index.is_none() {
                            sel.streams.attachment_stream = info;
                        }
                    },
                    MediaKind::Nb => {
                        if sel.streams.nb_stream.index.is_none() {
                            sel.streams.nb_stream = info;
                        }
                    },
                    MediaKind::Data => {
                        if sel.streams.data_stream.index.is_none() {
                            sel.streams.data_stream = info;
                        }
                    },
                    MediaKind::Unknown => {
                        sel.streams.unknown_streams.push(info);
                    },
                }
            }
        }
        proof {
            assert(streams@.take(n as int) =~= streams@);
        }
        sel
    }

    /// Build the published audio summary of one retained stream.
    fn audio_summary_for(s: &StreamDesc) -> (summary: AudioSummary)
        requires
            stream_usable(*s),
            stream_math_ok(*s),
        ensures
            summary == spec_audio_summary(*s),
    {
        let timebase_inverse: u64 = s.timebase_den / s.timebase_num;
        proof {
            vstd::arithmetic::div_mod::lemma_div_non_zero(
                s.timebase_den as int,
                s.timebase_num as int,
            );
        }
        let duration_millis: u64 = 1000 * s.duration / timebase_inverse;
        let frames: u64 = s.nb_frames as u64;
        let play_interval: u64 = duration_millis / frames;
        AudioSummary {
            decoder_name: s.decoder_name.clone(),
            duration: s.duration,
            duration_millis,
            frames,
            timebase_num: s.timebase_num,
            timebase_den: s.timebase_den,
            timebase_inverse,
            play_interval,
            channels: s.channels,
            channel_layout: s.channel_layout,
            sample_rate: s.sample_rate,
            frame_size: s.frame_size,
        }
    }

    /// Build the published video summary of one retained stream.
    fn video_summary_for(s: &StreamDesc) -> (summary: VideoSummary)
        requires
            stream_usable(*s),
            stream_math_ok(*s),
        ensures
            summary == spec_video_summary(*s),
    {
        let timebase_inverse: u64 = s.timebase_den / s.timebase_num;
        proof {
            vstd::arithmetic::div_mod::lemma_div_non_zero(
                s.timebase_den as int,
                s.timebase_num as int,
            );
        }
        let duration_millis: u64 = 1000 * s.duration / timebase_inverse;
        let frames: u64 = s.nb_frames as u64;
        let play_interval: u64 = duration_millis / frames;
        VideoSummary {
            decoder_name: s.decoder_name.clone(),
            duration: s.duration,
            duration_millis,
            frames,
            timebase_num: s.timebase_num,
            timebase_den: s.timebase_den,
            timebase_inverse,
            play_interval,
            width: s.width,
            height: s.height,
        }
    }
}


/// A decoded, presentation-ready audio frame. The sample bytes stay as the
/// decoder handed them out; `volume` records the gain register at the
/// moment the frame was built, and the renderer applies it. A frame
/// already queued is therefore untouched by later volume changes.
#[derive(Debug, Clone, PartialEq)]
pub struct AudioFrame {
    /// Sample format tag, as the decoder reports it.
    pub format: i32,
    /// Interleaved sample bytes, left and right alternating sample by
    /// sample, four bytes per sample.
    pub data: Vec<u8>,
    /// display timestamp
    pub pts: i64,
    /// Pts in milliseconds
    pub pts_millis: i64,
    pub sample_rate: i32,
    pub channels: u8,
    pub channel_layout: u8,
    /// The volume register's value when this frame was built.
    pub volume: i16,
}

/// A decoded, presentation-ready video frame: up to eight planar byte
/// buffers. A frame of a pixel format with no conversion carries empty
/// planes and its original format tag, so the renderer can recognize and
/// skip it.
#[derive(Debug, Clone, PartialEq)]
pub struct VideoFrame {
    pub format: i32,
    pub data: [Vec<u8>; 8],
    pub width: usize,
    pub height: usize,
    pub pts: i64,
    /// Pts in milliseconds
    pub pts_millis: i64,
}

/// A subtitle frame; recognized but not decoded.
#[derive(Debug, Clone, PartialEq)]
pub struct SubtitleFrame {
    pub format: i32,
    pub data: [Vec<u8>; 8],
    pub pts: i64,
    /// Pts in milliseconds
    pub pts_millis: i64,
}

/// The three bounded frame queues, one per media kind, shared between the
/// decode loop (producer) and the playback drivers (consumers).
pub struct FrameBuffers {
    pub audio: FrameBuffer<AudioFrame>,
    pub video: FrameBuffer<VideoFrame>,
    pub subtitle: FrameBuffer<SubtitleFrame>,
}

impl FrameBuffers {
    pub fn new(audio_capacity: usize, video_capacity: usize, subtitle_capacity: usize) -> (b:
        Self)
        ensures
            b.audio@ == Seq::<AudioFrame>::empty(),
            b.video@ == Seq::<VideoFrame>::empty(),
            b.subtitle@ == Seq::<SubtitleFrame>::empty(),
            b.audio.cap() == audio_capacity,
            b.video.cap() == video_capacity,
            b.subtitle.cap() == subtitle_capacity,
    {
        FrameBuffers {
            audio: FrameBuffer::new(audio_capacity),
            video: FrameBuffer::new(video_capacity),
            subtitle: FrameBuffer::new(subtitle_capacity),
        }
    }

    /// Whether any of the three buffers is at capacity; while this holds,
    /// the decode loop reads no packets.
    pub open spec fn spec_any_full(&self) -> bool {
        ||| self.audio@.len() == self.audio.cap()
        ||| self.video@.len() == self.video.cap()
        ||| self.subtitle@.len() == self.subtitle.cap()
    }
}

/// What the decode loop decides to do next, before touching the container.
#[derive(Debug, Clone, Copy, PartialEq, Eq, Structural)]
pub enum DecodeAction {
    /// Stop was requested or the stream ended: the loop terminates.
    Finish,
    /// Reposition the container to `target` on stream `stream_index`.
    Seek { target: i64, stream_index: i32 },
    /// Some buffer is full: sleep [`BUFFER_FULL_SLEEP_MILLIS`] and retry
    /// without reading.
    Wait,
    /// Read the next packet from the container.
    ReadPacket,
}

/// The outcome of offering a decoded frame to its buffer.
#[derive(Debug)]
pub enum FrameOffer<T> {
    /// The frame was queued.
    Delivered,
    /// The buffer is full; the frame comes back so the caller can retry
    /// after a pause.
    TryAgain(T),
    /// Stop was requested; the frame comes back and the caller should
    /// terminate instead of retrying.
    Stopped(T),
}

/// The seek request the decode loop would consume now: the pending target
/// of the sync stream — the video stream if one is retained, else the
/// audio stream — provided that target is set.
pub open spec fn spec_pending_seek(d: MediaDecoder) -> Option<(i64, i32)> {
    match d.streams.video_stream.index {
        Some(idx) => if d.video_seek_to >= 0 {
            Some((d.video_seek_to, idx))
        } else {
            None
        },
        None => match d.streams.audio_stream.index {
            Some(idx) => if d.audio_seek_to >= 0 {
                Some((d.audio_seek_to, idx))
            } else {
                None
            },
            None => None,
        },
    }
}

/// Where a packet with the given stream index is routed.
pub open spec fn spec_route(streams: MediaStreams, stream_index: i32) -> MediaKind {
    if streams.audio_stream.index == Some(stream_index) {
        MediaKind::Audio
    } else if streams.video_stream.index == Some(stream_index) {
        MediaKind::Video
    } else if streams.subtitle_stream.index == Some(stream_index) {
        MediaKind::Subtitle
    } else if streams.data_stream.index == Some(stream_index) {
        MediaKind::Data
    } else if streams.nb_stream.index == Some(stream_index) {
        MediaKind::Nb
    } else if streams.attachment_stream.index == Some(stream_index) {
        MediaKind::Attachment
    } else {
        MediaKind::Unknown
    }
}

/// The next value of a post-seek drop counter when one more decoded frame
/// arrives: it counts up to [`MAX_SKIP_FRAMES`], then pins at `u8::MAX`
/// until the next seek resets it.
pub open spec fn spec_settle_next(count: u8) -> u8 {
    if count < MAX_SKIP_FRAMES {
        (count + 1) as u8
    } else {
        u8::MAX
    }
}

/// A settled counter lets frames through; an unsettled one is still
/// discarding stale post-seek output.
pub open spec fn spec_settled(count: u8) -> bool {
    count >= MAX_SKIP_FRAMES
}

/// The drop counter after `k` decoded frames of one kind have arrived
/// since a seek reset it to zero.
pub open spec fn spec_counter_after(k: nat) -> u8
    decreases k,
{
    if k == 0 {
        0
    } else {
        spec_settle_next(spec_counter_after((k - 1) as nat))
    }
}

/// Law: the post-seek settling window is exactly [`MAX_SKIP_FRAMES`]
/// frames. Counting decoded frames of one kind from a seek, each of the
/// first `MAX_SKIP_FRAMES` arrivals finds the filter unsettled and is
/// discarded, and every later arrival finds it settled and is delivered.
pub proof fn lemma_post_seek_settling(k: nat)
    ensures
        k <= MAX_SKIP_FRAMES ==> spec_counter_after(k) == k,
        k > MAX_SKIP_FRAMES ==> spec_counter_after(k) == u8::MAX,
        spec_settled(spec_counter_after(k)) <==> k >= MAX_SKIP_FRAMES,
    decreases k,
{
    if k > 0 {
        lemma_post_seek_settling((k - 1) as nat);
    }
}

impl MediaDecoder {
    /// Request a frame-accurate seek. The position, clamped below at zero,
    /// is converted from milliseconds to each retained stream's native
    /// units through its timebase reciprocal, and stored in that kind's
    /// seek register for the decode loop to consume.
    pub fn seek_to(&mut self, position: i64)
        requires
            old(self).audio_summary matches Some(s) ==> s.timebase_inverse <= i64::MAX
                && spec_seek_target(position, s.timebase_inverse) <= i64::MAX,
            old(self).video_summary matches Some(s) ==> s.timebase_inverse <= i64::MAX
                && spec_seek_target(position, s.timebase_inverse) <= i64::MAX,
        ensures
            final(self).audio_seek_to == (match old(self).audio_summary {
                Some(s) => spec_seek_target(position, s.timebase_inverse),
                None => old(self).audio_seek_to as int,
            }),
            final(self).video_seek_to == (match old(self).video_summary {
                Some(s) => spec_seek_target(position, s.timebase_inverse),
                None => old(self).video_seek_to as int,
            }),
            final(self).stop_flag == old(self).stop_flag,
            final(self).audio_dropped_frames == old(self).audio_dropped_frames,
            final(self).video_dropped_frames == old(self).video_dropped_frames,
            final(self).streams == old(self).streams,
            final(self).audio_summary == old(self).audio_summary,
            final(self).video_summary == old(self).video_summary,
            final(self).subtitle_summary == old(self).subtitle_summary,
    {
        let position: i64 = if position < 0 {
            0
        } else {
            position
        };
        if let Some(summary) = &self.audio_summary {
            let start: i64 = position / 1000 * (summary.timebase_inverse as i64);
            self.audio_seek_to = start;
        }
        if let Some(summary) = &self.video_summary {
            let start: i64 = position / 1000 * (summary.timebase_inverse as i64);
            self.video_seek_to = start;
        }
    }

    /// Ask the decode loop to terminate; it notices within one iteration.
    pub fn stop(&mut self)
        ensures
            final(self).stop_flag,
            final(self).audio_seek_to == old(self).audio_seek_to,
            final(self).video_seek_to == old(self).video_seek_to,
            final(self).audio_dropped_frames == old(self).audio_dropped_frames,
            final(self).video_dropped_frames == old(self).video_dropped_frames,
            final(self).streams == old(self).streams,
            final(self).audio_summary == old(self).audio_summary,
            final(self).video_summary == old(self).video_summary,
            final(self).subtitle_summary == old(self).subtitle_summary,
    {
        self.stop_flag = true;
    }

    /// One decision of the decode loop, taken before any container work:
    /// terminate if stop was requested; else consume a pending seek on the
    /// sync stream — resetting both drop counters, draining every buffer
    /// and announcing the finished seek; else hold off while any buffer is
    /// full; else go on to read a packet.
    pub fn begin_iteration(
        &mut self,
        buffers: &mut FrameBuffers,
        events: &mut Vec<EventMessage>,
    ) -> (action: DecodeAction)
        ensures
            final(self).stop_flag == old(self).stop_flag,
            final(self).streams == old(self).streams,
            final(self).audio_summary == old(self).audio_summary,
            final(self).video_summary == old(self).video_summary,
            final(self).subtitle_summary == old(self).subtitle_summary,
            final(buffers).audio.cap() == old(buffers).audio.cap(),
            final(buffers).video.cap() == old(buffers).video.cap(),
            final(buffers).subtitle.cap() == old(buffers).subtitle.cap(),
            old(self).stop_flag ==> {
                &&& action is Finish
                &&& *final(self) == *old(self)
                &&& *final(buffers) == *old(buffers)
                &&& final(events)@ == old(events)@
            },
            !old(self).stop_flag ==> (match spec_pending_seek(*old(self)) {
                Some(seek) => {
                    &&& action == (DecodeAction::Seek { target: seek.0, stream_index: seek.1 })
                    &&& final(self).audio_dropped_frames == 0
                    &&& final(self).video_dropped_frames == 0
                    &&& final(self).video_seek_to == (
                        if old(self).streams.video_stream.index is Some {
                            -1
                        } else {
                            old(self).video_seek_to as int
                        }
                    )
                    &&& final(self).audio_seek_to == (
                        if old(self).streams.video_stream.index is Some {
                            old(self).audio_seek_to as int
                        } else {
                            -1
                        }
                    )
                    &&& final(buffers).audio@ == Seq::<AudioFrame>::empty()
                    &&& final(buffers).video@ == Seq::<VideoFrame>::empty()
                    &&& final(buffers).subtitle@ == Seq::<SubtitleFrame>::empty()
                    &&& final(events)@ == old(events)@.push(EventMessage::SeekFinished)
                },
                None => {
                    &&& *final(self) == *old(self)
                    &&& *final(buffers) == *old(buffers)
                    &&& final(events)@ == old(events)@
                    &&& action == (if old(buffers).spec_any_full() {
                        DecodeAction::Wait
                    } else {
                        DecodeAction::ReadPacket
                    })
                },
            }),
    {
        if self.stop_flag {
            return DecodeAction::Finish;
        }
        let seek_request: Option<(i64, i32)> = match self.streams.video_stream.index {
            Some(idx) => {
                if self.video_seek_to >= 0 {
                    let target: i64 = self.video_seek_to;
                    self.video_seek_to = -1;
                    Some((target, idx))
                } else {
                    None
                }
            },
            None => match self.streams.audio_stream.index {
                Some(idx) => {
                    if self.audio_seek_to >= 0 {
                        let target: i64 = self.audio_seek_to;
                        self.audio_seek_to = -1;
                        Some((target, idx))
                    } else {
                        None
                    }
                },
                None => None,
            },
        };
        if let Some((target, stream_index)) = seek_request {
            self.audio_dropped_frames = 0;
            self.video_dropped_frames = 0;
            Self::clear_buffer(buffers);
            events.push(EventMessage::SeekFinished);
            return DecodeAction::Seek { target, stream_index };
        }
        if buffers.audio.is_full() || buffers.video.is_full() || buffers.subtitle.is_full() {
            return DecodeAction::Wait;
        }
        DecodeAction::ReadPacket
    }

    /// Drain all three frame buffers, discarding their contents.
    pub fn clear_buffer(buffers: &mut FrameBuffers)
        ensures
            final(buffers).audio@ == Seq::<AudioFrame>::empty(),
            final(buffers).video@ == Seq::<VideoFrame>::empty(),
            final(buffers).subtitle@ == Seq::<SubtitleFrame>::empty(),
            final(buffers).audio.cap() == old(buffers).audio.cap(),
            final(buffers).video.cap() == old(buffers).video.cap(),
            final(buffers).subtitle.cap() == old(buffers).subtitle.cap(),
    {
        buffers.audio.clear();
        buffers.video.clear();
        buffers.subtitle.clear();
    }

    /// Which kind of stream a packet belongs to, by its stream index; a
    /// packet matching no retained stream is of no interest.
    pub fn route_packet(&self, stream_index: i32) -> (kind: MediaKind)
        ensures
            kind == spec_route(self.streams, stream_index),
    {
        if Self::index_matches(&self.streams.audio_stream, stream_index) {
            MediaKind::Audio
        } else if Self::index_matches(&self.streams.video_stream, stream_index) {
            MediaKind::Video
        } else if Self::index_matches(&self.streams.subtitle_stream, stream_index) {
            MediaKind::Subtitle
        } else if Self::index_matches(&self.streams.data_stream, stream_index) {
            MediaKind::Data
        } else if Self::index_matches(&self.streams.nb_stream, stream_index) {
            MediaKind::Nb
        } else if Self::index_matches(&self.streams.attachment_stream, stream_index) {
            MediaKind::Attachment
        } else {
            MediaKind::Unknown
        }
    }

    fn index_matches(info: &StreamInfo, stream_index: i32) -> (matched: bool)
        ensures
            matched == (info.index == Some(stream_index)),
    {
        match info.index {
            Some(idx) => idx == stream_index,
            None => false,
        }
    }

    /// The post-seek settling filter for one decoded audio frame: counts
    /// the arrival and says whether the frame is delivered (`true`) or
    /// discarded as stale (`false`).
    pub fn admit_audio_frame(&mut self) -> (deliver: bool)
        ensures
            deliver == spec_settled(old(self).audio_dropped_frames),
            final(self).audio_dropped_frames == spec_settle_next(old(self).audio_dropped_frames),
            final(self).video_dropped_frames == old(self).video_dropped_frames,
            final(self).stop_flag == old(self).stop_flag,
            final(self).audio_seek_to == old(self).audio_seek_to,
            final(self).video_seek_to == old(self).video_seek_to,
            final(self).streams == old(self).streams,
            final(self).audio_summary == old(self).audio_summary,
            final(self).video_summary == old(self).video_summary,
            final(self).subtitle_summary == old(self).subtitle_summary,
    {
        if self.audio_dropped_frames < MAX_SKIP_FRAMES {
            self.audio_dropped_frames = self.audio_dropped_frames + 1;
            false
        } else {
            self.audio_dropped_frames = u8::MAX;
            true
        }
    }

    /// The post-seek settling filter for one decoded video frame; the
    /// video counterpart of [`Self::admit_audio_frame`].
    pub fn admit_video_frame(&mut self) -> (deliver: bool)
        ensures
            deliver == spec_settled(old(self).video_dropped_frames),
            final(self).video_dropped_frames == spec_settle_next(old(self).video_dropped_frames),
            final(self).audio_dropped_frames == old(self).audio_dropped_frames,
            final(self).stop_flag == old(self).stop_flag,
            final(self).audio_seek_to == old(self).audio_seek_to,
            final(self).video_seek_to == old(self).video_seek_to,
            final(self).streams == old(self).streams,
            final(self).audio_summary == old(self).audio_summary,
            final(self).video_summary == old(self).video_summary,
            final(self).subtitle_summary == old(self).subtitle_summary,
    {
        if self.video_dropped_frames < MAX_SKIP_FRAMES {
            self.video_dropped_frames = self.video_dropped_frames + 1;
            false
        } else {
            self.video_dropped_frames = u8::MAX;
            true
        }
    }

    /// Offer a delivered audio frame to its buffer. A full buffer hands
    /// the frame back for a later retry; a set stop flag hands it back for
    /// good, so a stop request is never delayed by a consumer that has
    /// stopped draining.
    pub fn offer_audio_frame(&self, buffers: &mut FrameBuffers, frame: AudioFrame) -> (offer:
        FrameOffer<AudioFrame>)
        ensures
            final(buffers).audio.cap() == old(buffers).audio.cap(),
            final(buffers).video == old(buffers).video,
            final(buffers).subtitle == old(buffers).subtitle,
            self.stop_flag ==> {
                &&& offer == FrameOffer::Stopped(frame)
                &&& final(buffers).audio == old(buffers).audio
            },
            !self.stop_flag && old(buffers).audio@.len() == old(buffers).audio.cap() ==> {
                &&& offer == FrameOffer::TryAgain(frame)
                &&& final(buffers).audio@ == old(buffers).audio@
            },
            !self.stop_flag && old(buffers).audio@.len() < old(buffers).audio.cap() ==> {
                &&& offer is Delivered
                &&& final(buffers).audio@ == old(buffers).audio@.push(frame)
            },
    {
        if self.stop_flag {
            return FrameOffer::Stopped(frame);
        }
        match buffers.audio.push(frame) {
            Ok(()) => FrameOffer::Delivered,
            Err(rejected) => FrameOffer::TryAgain(rejected),
        }
    }

    /// Offer a delivered video frame to its buffer; the video counterpart
    /// of [`Self::offer_audio_frame`].
    pub fn offer_video_frame(&self, buffers: &mut FrameBuffers, frame: VideoFrame) -> (offer:
        FrameOffer<VideoFrame>)
        ensures
            final(buffers).video.cap() == old(buffers).video.cap(),
            final(buffers).audio == old(buffers).audio,
            final(buffers).subtitle == old(buffers).subtitle,
            self.stop_flag ==> {
                &&& offer == FrameOffer::Stopped(frame)
                &&& final(buffers).video == old(buffers).video
            },
            !self.stop_flag && old(buffers).video@.len() == old(buffers).video.cap() ==> {
                &&& offer == FrameOffer::TryAgain(frame)
                &&& final(buffers).video@ == old(buffers).video@
            },
            !self.stop_flag && old(buffers).video@.len() < old(buffers).video.cap() ==> {
                &&& offer is Delivered
                &&& final(buffers).video@ == old(buffers).video@.push(frame)
            },
    {
        if self.stop_flag {
            return FrameOffer::Stopped(frame);
        }
        match buffers.video.push(frame) {
            Ok(()) => FrameOffer::Delivered,
            Err(rejected) => FrameOffer::TryAgain(rejected),
        }
    }
}

/// A millisecond seek position converted to native units: clamped below
/// at zero, divided down to whole seconds, and scaled by the stream's
/// timebase reciprocal.
pub open spec fn spec_seek_target(position: i64, timebase_inverse: u64) -> int {
    (if position < 0 {
        0int
    } else {
        position as int
    }) / 1000 * timebase_inverse
}



/// A native presentation timestamp converted to milliseconds through the
/// stream timebase: `1000 * pts * timebase_num / timebase_den`.
pub open spec fn spec_pts_millis(pts: i64, timebase_num: u64, timebase_den: u64) -> int {
    1000 * pts * timebase_num / timebase_den as int
}

/// What the millisecond conversion of a timestamp needs: a non-negative
/// timestamp, a positive timebase that fits signed words, and a product
/// that does not overflow.
pub open spec fn pts_math_ok(pts: i64, timebase_num: u64, timebase_den: u64) -> bool {
    &&& pts >= 0
    &&& 0 < timebase_num
    &&& timebase_den <= i64::MAX
    &&& timebase_num <= timebase_den
    &&& 1000 * pts * timebase_num <= i64::MAX
}


} // verus!
