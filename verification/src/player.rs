//! The two playback drivers and the transport controls composed over
//! them. Each driver runs one state machine; external control calls
//! record a request, and the driver's own loop completes it on its next
//! observation. The audio driver is the sole writer of the play clock
//! during normal playback, and resets it while a seek is in flight.

use vstd::prelude::*;

use crate::decoder::{
    AudioSummary, FrameBuffers, MediaDecoder, VideoSummary, spec_seek_target,
};
use crate::entity::EventMessage;
use crate::error::CustomError;
use crate::global::{ControlRegisters, FR_STEP, MAX_VOLUME, VOLUME_STEP};

verus! {

/// The extra amount a rewind goes back past one step, so it does not land
/// on the frame it started from.
pub const REWIND_ADJUST_DIFF: i64 = 2000;

/// States of a playback driver, shared by the audio and the video kind.
#[derive(Debug, Clone, Copy, PartialEq, Eq, Structural)]
pub enum State {
    /// Actively draining the kind's frame buffer.
    Playing,
    /// Holding; the buffer is left alone.
    Paused,
    /// Terminal: the driver's task exits.
    Stopped,
    /// A seek is in flight; the audio driver resets the play clock.
    Seeking,
    /// The seek completed; play resumes on the next observation.
    SeekFinished,
    /// A start or play request, completed by the driver's loop.
    ReadyToPlay,
    /// A pause request, completed by the driver's loop.
    ReadyToPause,
    /// A resume request, completed by the driver's loop.
    ReadyToResume,
    /// A stop request, completed by the driver's loop.
    ReadyToStop,
}

/// The transport controls the facade can request of a driver.
#[derive(Debug, Clone, Copy, PartialEq, Eq, Structural)]
pub enum Control {
    Play,
    Pause,
    Resume,
    Stop,
    Seeking,
    SeekFinished,
}

/// What each external control call records, from every state: the request
/// states (or the two seek states) that the driver's own loop completes.
/// Total in both arguments — no call is refused, none panics.
pub open spec fn spec_control_next(state: State, control: Control) -> State {
    match control {
        Control::Play => State::ReadyToPlay,
        Control::Pause => State::ReadyToPause,
        Control::Resume => State::ReadyToResume,
        Control::Stop => State::ReadyToStop,
        Control::Seeking => State::Seeking,
        Control::SeekFinished => State::SeekFinished,
    }
}

/// What a driver does with one observation of its state.
#[derive(Debug, Clone, Copy, PartialEq, Eq, Structural)]
pub enum TickStep {
    /// Terminal state reached: the driver's task exits.
    Exit,
    /// Nothing to drain this tick: sleep one interval and observe again.
    Idle,
    /// Proceed to the frame step: pop and emit one frame if one is there.
    Step,
}

/// One observation of the driver loop: the state it settles into and the
/// step it takes, for every state.
pub open spec fn spec_observe(state: State) -> (State, TickStep) {
    match state {
        State::ReadyToStop => (State::Stopped, TickStep::Exit),
        State::Stopped => (State::Stopped, TickStep::Exit),
        State::ReadyToPause => (State::Paused, TickStep::Idle),
        State::Paused => (State::Paused, TickStep::Idle),
        State::ReadyToPlay => (State::Playing, TickStep::Step),
        State::ReadyToResume => (State::Playing, TickStep::Step),
        State::Playing => (State::Playing, TickStep::Step),
        State::Seeking => (State::Seeking, TickStep::Idle),
        State::SeekFinished => (State::Playing, TickStep::Step),
    }
}

/// Law: driver state transitions are total. From every state, every
/// external control call yields the defined request state, and the
/// driver's next observation resolves that request to the steady state
/// the control asked for — stop stops, pause pauses, play and resume
/// play, a seek holds until it finishes, and a finished seek plays on.
pub proof fn lemma_driver_transitions_total(state: State, control: Control)
    ensures
        control is Stop ==> spec_observe(spec_control_next(state, control))
            == (State::Stopped, TickStep::Exit),
        control is Pause ==> spec_observe(spec_control_next(state, control))
            == (State::Paused, TickStep::Idle),
        control is Play ==> spec_observe(spec_control_next(state, control))
            == (State::Playing, TickStep::Step),
        control is Resume ==> spec_observe(spec_control_next(state, control))
            == (State::Playing, TickStep::Step),
        control is Seeking ==> spec_observe(spec_control_next(state, control))
            == (State::Seeking, TickStep::Idle),
        control is SeekFinished ==> spec_observe(spec_control_next(state, control))
            == (State::Playing, TickStep::Step),
{
}

/// A playback driver answers the facade's transport requests; each call
/// records its request as [`spec_control_next`] says, whatever state the
/// driver is in.
pub trait Player: Sized {
    /// The driver state a control call leaves behind, for this player.
    spec fn controlled(pre: Self, post: Self, control: Control) -> bool;

    fn play(&mut self)
        ensures
            Self::controlled(*old(self), *final(self), Control::Play),
    ;

    fn pause(&mut self)
        ensures
            Self::controlled(*old(self), *final(self), Control::Pause),
    ;

    fn resume(&mut self)
        ensures
            Self::controlled(*old(self), *final(self), Control::Resume),
    ;

    fn stop(&mut self)
        ensures
            Self::controlled(*old(self), *final(self), Control::Stop),
    ;

    fn seeking(&mut self)
        ensures
            Self::controlled(*old(self), *final(self), Control::Seeking),
    ;

    fn seek_finished(&mut self)
        ensures
            Self::controlled(*old(self), *final(self), Control::SeekFinished),
    ;
}

/// The audio playback driver: drains the audio buffer on its own cadence
/// and publishes each emitted frame's timestamp as the play clock.
pub struct AudioPlayer {
    /// State of the audio player.
    pub state: State,
}

impl AudioPlayer {
    pub fn new() -> (player: Self)
        ensures
            player.state == State::Stopped,
    {
        AudioPlayer { state: State::Stopped }
    }

    /// Start playing, provided an audio stream was retained: with no
    /// published summary this is a no-op, not an error — media without
    /// audio never starts an audio driver.
    pub fn start(&mut self, summary: &Option<AudioSummary>) -> (started: bool)
        ensures
            started == (summary is Some),
            started ==> final(self).state == State::Playing,
            !started ==> *final(self) == *old(self),
    {
        match summary {
            Some(_) => {
                self.state = State::Playing;
                true
            },
            None => false,
        }
    }

    /// One loop iteration: observe the state, and if playing, pop one
    /// frame — publishing its timestamp as the play clock and emitting a
    /// render event. While a seek is in flight the clock is held at `-1`.
    /// An empty buffer is silent starvation, not an error.
    pub fn tick(
        &mut self,
        buffers: &mut FrameBuffers,
        registers: &mut ControlRegisters,
        events: &mut Vec<EventMessage>,
    ) -> (step: TickStep)
        ensures
            final(self).state == spec_observe(old(self).state).0,
            step == spec_observe(old(self).state).1,
            final(buffers).audio.cap() == old(buffers).audio.cap(),
            final(buffers).video == old(buffers).video,
            final(buffers).subtitle == old(buffers).subtitle,
            final(registers).volume == old(registers).volume,
            old(self).state is Seeking ==> final(registers).pts_millis == -1,
            step != TickStep::Step ==> {
                &&& final(buffers).audio == old(buffers).audio
                &&& final(events)@ == old(events)@
                &&& (old(self).state !is Seeking ==> final(registers).pts_millis == old(
                    registers,
                ).pts_millis)
            },
            step == TickStep::Step && old(buffers).audio@.len() == 0 ==> {
                &&& final(buffers).audio@ == old(buffers).audio@
                &&& final(events)@ == old(events)@
                &&& final(registers).pts_millis == old(registers).pts_millis
            },
            step == TickStep::Step && old(buffers).audio@.len() > 0 ==> {
                &&& final(buffers).audio@ == old(buffers).audio@.drop_first()
                &&& final(events)@ == old(events)@.push(
                    EventMessage::RenderAudio(old(buffers).audio@[0]),
                )
                &&& final(registers).pts_millis == old(buffers).audio@[0].pts_millis
            },
    {
        let step: TickStep = match self.state {
            State::ReadyToStop => {
                self.state = State::Stopped;
                TickStep::Exit
            },
            State::Stopped => TickStep::Exit,
            State::ReadyToPause => {
                self.state = State::Paused;
                TickStep::Idle
            },
            State::Paused => TickStep::Idle,
            State::ReadyToPlay | State::ReadyToResume => {
                self.state = State::Playing;
                TickStep::Step
            },
            State::Playing => TickStep::Step,
            State::Seeking => {
                registers.pts_millis = -1;
                TickStep::Idle
            },
            State::SeekFinished => {
                self.state = State::Playing;
                TickStep::Step
            },
        };
        if let TickStep::Step = step {
            if let Some(frame) = buffers.audio.pop() {
                registers.pts_millis = frame.pts_millis;
                events.push(EventMessage::RenderAudio(frame));
            }
        }
        step
    }
}

impl Player for AudioPlayer {
    open spec fn controlled(pre: Self, post: Self, control: Control) -> bool {
        post.state == spec_control_next(pre.state, control)
    }

    fn play(&mut self) {
        self.state = State::ReadyToPlay;
    }

    fn pause(&mut self) {
        self.state = State::ReadyToPause;
    }

    fn resume(&mut self) {
        self.state = State::ReadyToResume;
    }

    fn stop(&mut self) {
        self.state = State::ReadyToStop;
    }

    fn seeking(&mut self) {
        self.state = State::Seeking;
    }

    fn seek_finished(&mut self) {
        self.state = State::SeekFinished;
    }
}

/// The video playback driver: drains the video buffer on its own cadence
/// and emits render events; it never writes the play clock.
pub struct VideoPlayer {
    /// State of the video player.
    pub state: State,
}

impl VideoPlayer {
    pub fn new() -> (player: Self)
        ensures
            player.state == State::Stopped,
    {
        VideoPlayer { state: State::Stopped }
    }

    /// Start playing, provided a video stream was retained: with no
    /// published summary this is a no-op. Starting announces the native
    /// pixel size once, so the window can take the stream's geometry.
    pub fn start(&mut self, summary: &Option<VideoSummary>, events: &mut Vec<EventMessage>) -> (
        started: bool)
        ensures
            started == (summary is Some),
            started ==> {
                &&& final(self).state == State::Playing
                &&& summary matches Some(s) && final(events)@ == old(events)@.push(
                    EventMessage::Resize(s.width, s.height),
                )
            },
            !started ==> {
                &&& *final(self) == *old(self)
                &&& final(events)@ == old(events)@
            },
    {
        match summary {
            Some(s) => {
                events.push(EventMessage::Resize(s.width, s.height));
                self.state = State::Playing;
                true
            },
            None => false,
        }
    }

    /// One loop iteration: observe the state, and if playing, pop one
    /// frame and emit its render event. An empty buffer is silent
    /// starvation, not an error.
    pub fn tick(&mut self, buffers: &mut FrameBuffers, events: &mut Vec<EventMessage>) -> (step:
        TickStep)
        ensures
            final(self).state == spec_observe(old(self).state).0,
            step == spec_observe(old(self).state).1,
            final(buffers).video.cap() == old(buffers).video.cap(),
            final(buffers).audio == old(buffers).audio,
            final(buffers).subtitle == old(buffers).subtitle,
            step != TickStep::Step ==> {
                &&& final(buffers).video == old(buffers).video
                &&& final(events)@ == old(events)@
            },
            step == TickStep::Step && old(buffers).video@.len() == 0 ==> {
                &&& final(buffers).video@ == old(buffers).video@
                &&& final(events)@ == old(events)@
            },
            step == TickStep::Step && old(buffers).video@.len() > 0 ==> {
                &&& final(buffers).video@ == old(buffers).video@.drop_first()
                &&& final(events)@ == old(events)@.push(
                    EventMessage::RenderVideo(old(buffers).video@[0]),
                )
            },
    {
        let step: TickStep = match self.state {
            State::ReadyToStop => {
                self.state = State::Stopped;
                TickStep::Exit
            },
            State::Stopped => TickStep::Exit,
            State::ReadyToPause => {
                self.state = State::Paused;
                TickStep::Idle
            },
            State::Paused => TickStep::Idle,
            State::ReadyToPlay | State::ReadyToResume => {
                self.state = State::Playing;
                TickStep::Step
            },
            State::Playing => TickStep::Step,
            State::Seeking => TickStep::Idle,
            State::SeekFinished => {
                self.state = State::Playing;
                TickStep::Step
            },
        };
        if let TickStep::Step = step {
            if let Some(frame) = buffers.video.pop() {
                events.push(EventMessage::RenderVideo(frame));
            }
        }
        step
    }
}

impl Player for VideoPlayer {
    open spec fn controlled(pre: Self, post: Self, control: Control) -> bool {
        post.state == spec_control_next(pre.state, control)
    }

    fn play(&mut self) {
        self.state = State::ReadyToPlay;
    }

    fn pause(&mut self) {
        self.state = State::ReadyToPause;
    }

    fn resume(&mut self) {
        self.state = State::ReadyToResume;
    }

    fn stop(&mut self) {
        self.state = State::ReadyToStop;
    }

    fn seeking(&mut self) {
        self.state = State::Seeking;
    }

    fn seek_finished(&mut self) {
        self.state = State::SeekFinished;
    }
}

/// Both playback drivers of one session, controlled together.
pub struct MediaPlayer {
    pub audio_player: AudioPlayer,
    pub video_player: VideoPlayer,
}

impl MediaPlayer {
    pub fn new() -> (player: Self)
        ensures
            player.audio_player.state == State::Stopped,
            player.video_player.state == State::Stopped,
    {
        MediaPlayer { audio_player: AudioPlayer::new(), video_player: VideoPlayer::new() }
    }

    /// Start both drivers for the kinds whose summaries are published; a
    /// kind without a stream stays stopped, which is no error.
    pub fn start(
        &mut self,
        audio_summary: &Option<AudioSummary>,
        video_summary: &Option<VideoSummary>,
        events: &mut Vec<EventMessage>,
    ) -> (result: Result<(), CustomError>)
        ensures
            result is Ok,
            audio_summary is Some ==> final(self).audio_player.state == State::Playing,
            audio_summary is None ==> final(self).audio_player == old(self).audio_player,
            video_summary is Some ==> final(self).video_player.state == State::Playing,
            video_summary is None ==> final(self).video_player == old(self).video_player,
            video_summary matches Some(s) ==> final(events)@ == old(events)@.push(
                EventMessage::Resize(s.width, s.height),
            ),
            video_summary is None ==> final(events)@ == old(events)@,
    {
        self.audio_player.start(audio_summary);
        self.video_player.start(video_summary, events);
        Ok(())
    }
}

impl Player for MediaPlayer {
    open spec fn controlled(pre: Self, post: Self, control: Control) -> bool {
        &&& post.audio_player.state == spec_control_next(pre.audio_player.state, control)
        &&& post.video_player.state == spec_control_next(pre.video_player.state, control)
    }

    fn play(&mut self) {
        self.audio_player.play();
        self.video_player.play();
    }

    fn pause(&mut self) {
        self.audio_player.pause();
        self.video_player.pause();
    }

    fn resume(&mut self) {
        self.audio_player.resume();
        self.video_player.resume();
    }

    fn stop(&mut self) {
        self.audio_player.stop();
        self.video_player.stop();
    }

    fn seeking(&mut self) {
        self.audio_player.seeking();
        self.video_player.seeking();
    }

    fn seek_finished(&mut self) {
        self.audio_player.seek_finished();
        self.video_player.seek_finished();
    }
}

/// Whether the decoder's summaries admit converting `position` to both
/// kinds' native units without overflow.
pub open spec fn spec_seekable(d: MediaDecoder, position: i64) -> bool {
    &&& (d.audio_summary matches Some(s) ==> s.timebase_inverse <= i64::MAX
        && spec_seek_target(position, s.timebase_inverse) <= i64::MAX)
    &&& (d.video_summary matches Some(s) ==> s.timebase_inverse <= i64::MAX
        && spec_seek_target(position, s.timebase_inverse) <= i64::MAX)
}

/// One forward step of the transport: the target is one step past the
/// play clock; a target past the media's end means end-of-media, so the
/// session stops instead of seeking, and no seek is requested.
pub fn forward(
    decoder: &mut MediaDecoder,
    player: &mut MediaPlayer,
    registers: &ControlRegisters,
) -> (stopped: bool)
    requires
        registers.pts_millis >= -1,
        registers.pts_millis <= i64::MAX - FR_STEP,
        old(decoder).video_summary is Some,
        spec_seekable(*old(decoder), (registers.pts_millis + FR_STEP) as i64),
    ensures
        ({
            let start = registers.pts_millis + FR_STEP;
            let duration = old(decoder).video_summary->Some_0.duration_millis;
            if start > duration {
                &&& stopped
                &&& final(decoder).stop_flag
                &&& final(decoder).audio_seek_to == old(decoder).audio_seek_to
                &&& final(decoder).video_seek_to == old(decoder).video_seek_to
                &&& final(player).audio_player.state == State::ReadyToStop
                &&& final(player).video_player.state == State::ReadyToStop
            } else {
                &&& !stopped
                &&& final(decoder).stop_flag == old(decoder).stop_flag
                &&& final(player).audio_player.state == State::Seeking
                &&& final(player).video_player.state == State::Seeking
                &&& final(decoder).audio_seek_to == (match old(decoder).audio_summary {
                    Some(s) => spec_seek_target(start as i64, s.timebase_inverse),
                    None => old(decoder).audio_seek_to as int,
                })
                &&& final(decoder).video_seek_to == spec_seek_target(
                    start as i64,
                    old(decoder).video_summary->Some_0.timebase_inverse,
                )
            }
        }),
        final(decoder).streams == old(decoder).streams,
        final(decoder).audio_summary == old(decoder).audio_summary,
        final(decoder).video_summary == old(decoder).video_summary,
        final(decoder).subtitle_summary == old(decoder).subtitle_summary,
        final(decoder).audio_dropped_frames == old(decoder).audio_dropped_frames,
        final(decoder).video_dropped_frames == old(decoder).video_dropped_frames,
{
    let start: i64 = registers.pts_millis + FR_STEP;
    let duration_millis: u64 = match &decoder.video_summary {
        Some(summary) => summary.duration_millis,
        None => 0,
    };
    if start as u64 > duration_millis {
        decoder.stop();
        player.stop();
        true
    } else {
        player.seeking();
        decoder.seek_to(start);
        false
    }
}

/// One rewind step of the transport: one step back from the play clock,
/// and a little further so the seek does not land on the frame it left;
/// a target before the start is clamped to zero by the seek itself.
pub fn rewind(
    decoder: &mut MediaDecoder,
    player: &mut MediaPlayer,
    registers: &ControlRegisters,
)
    requires
        registers.pts_millis >= i64::MIN + FR_STEP + REWIND_ADJUST_DIFF,
        spec_seekable(*old(decoder), (registers.pts_millis - FR_STEP - REWIND_ADJUST_DIFF) as i64),
    ensures
        ({
            let start = registers.pts_millis - FR_STEP - REWIND_ADJUST_DIFF;
            &&& final(player).audio_player.state == State::Seeking
            &&& final(player).video_player.state == State::Seeking
            &&& final(decoder).audio_seek_to == (match old(decoder).audio_summary {
                Some(s) => spec_seek_target(start as i64, s.timebase_inverse),
                None => old(decoder).audio_seek_to as int,
            })
            &&& final(decoder).video_seek_to == (match old(decoder).video_summary {
                Some(s) => spec_seek_target(start as i64, s.timebase_inverse),
                None => old(decoder).video_seek_to as int,
            })
        }),
        final(decoder).stop_flag == old(decoder).stop_flag,
        final(decoder).streams == old(decoder).streams,
        final(decoder).audio_summary == old(decoder).audio_summary,
        final(decoder).video_summary == old(decoder).video_summary,
        final(decoder).subtitle_summary == old(decoder).subtitle_summary,
        final(decoder).audio_dropped_frames == old(decoder).audio_dropped_frames,
        final(decoder).video_dropped_frames == old(decoder).video_dropped_frames,
{
    let start: i64 = registers.pts_millis - FR_STEP - REWIND_ADJUST_DIFF;
    player.seeking();
    decoder.seek_to(start);
}


/// What the transport arms of the event loop need before they run: the
/// play clock within stepping range and seek targets that convert
/// without overflow, each asked only when its message arrives.
pub open spec fn spec_controls_ok(
    msg: EventMessage,
    d: MediaDecoder,
    registers: ControlRegisters,
) -> bool {
    &&& (msg is Forward ==> {
        &&& registers.pts_millis >= -1
        &&& registers.pts_millis <= i64::MAX - FR_STEP
        &&& d.video_summary is Some
        &&& spec_seekable(d, (registers.pts_millis + FR_STEP) as i64)
    })
    &&& (msg is Rewind ==> {
        &&& registers.pts_millis >= i64::MIN + FR_STEP + REWIND_ADJUST_DIFF
        &&& spec_seekable(d, (registers.pts_millis - FR_STEP - REWIND_ADJUST_DIFF) as i64)
    })
}

/// The transport arms of the application's event loop: pause, resume and
/// stop forwarded to both drivers (and, for stop, to the decode loop),
/// the two volume steps, the finished-seek notice, and the forward and
/// rewind transport math. Every other message is left to the
/// application shell, untouched.
pub fn handle_media_message(
    msg: &EventMessage,
    decoder: &mut MediaDecoder,
    player: &mut MediaPlayer,
    registers: &mut ControlRegisters,
) -> (handled: bool)
    requires
        spec_controls_ok(*msg, *old(decoder), *old(registers)),
        old(registers).wf(),
    ensures
        msg is Pause ==> {
            &&& handled
            &&& MediaPlayer::controlled(*old(player), *final(player), Control::Pause)
            &&& *final(decoder) == *old(decoder)
            &&& *final(registers) == *old(registers)
        },
        msg is Resume ==> {
            &&& handled
            &&& MediaPlayer::controlled(*old(player), *final(player), Control::Resume)
            &&& *final(decoder) == *old(decoder)
            &&& *final(registers) == *old(registers)
        },
        msg is Stop ==> {
            &&& handled
            &&& MediaPlayer::controlled(*old(player), *final(player), Control::Stop)
            &&& final(decoder).stop_flag
            &&& final(decoder).audio_seek_to == old(decoder).audio_seek_to
            &&& final(decoder).video_seek_to == old(decoder).video_seek_to
            &&& *final(registers) == *old(registers)
        },
        msg is SeekFinished ==> {
            &&& handled
            &&& MediaPlayer::controlled(*old(player), *final(player), Control::SeekFinished)
            &&& *final(decoder) == *old(decoder)
            &&& *final(registers) == *old(registers)
        },
        msg is UpVolume ==> {
            &&& handled
            &&& final(registers).volume == (if old(registers).volume + VOLUME_STEP
                <= MAX_VOLUME {
                old(registers).volume + VOLUME_STEP
            } else {
                MAX_VOLUME as int
            })
            &&& final(registers).pts_millis == old(registers).pts_millis
            &&& *final(decoder) == *old(decoder)
            &&& *final(player) == *old(player)
        },
        msg is DownVolume ==> {
            &&& handled
            &&& final(registers).volume == (if old(registers).volume >= VOLUME_STEP {
                old(registers).volume - VOLUME_STEP
            } else {
                old(registers).volume as int
            })
            &&& final(registers).pts_millis == old(registers).pts_millis
            &&& *final(decoder) == *old(decoder)
            &&& *final(player) == *old(player)
        },
        msg is Forward ==> {
            &&& handled
            &&& *final(registers) == *old(registers)
            &&& ({
                let start = old(registers).pts_millis + FR_STEP;
                let duration = old(decoder).video_summary->Some_0.duration_millis;
                if start > duration {
                    &&& final(decoder).stop_flag
                    &&& final(player).audio_player.state == State::ReadyToStop
                    &&& final(player).video_player.state == State::ReadyToStop
                } else {
                    &&& final(decoder).stop_flag == old(decoder).stop_flag
                    &&& final(player).audio_player.state == State::Seeking
                    &&& final(player).video_player.state == State::Seeking
                    &&& final(decoder).video_seek_to == spec_seek_target(
                        start as i64,
                        old(decoder).video_summary->Some_0.timebase_inverse,
                    )
                    &&& final(decoder).audio_seek_to == (match old(decoder).audio_summary {
                        Some(s) => spec_seek_target(start as i64, s.timebase_inverse),
                        None => old(decoder).audio_seek_to as int,
                    })
                }
            })
        },
        msg is Rewind ==> {
            &&& handled
            &&& *final(registers) == *old(registers)
            &&& final(player).audio_player.state == State::Seeking
            &&& final(player).video_player.state == State::Seeking
            &&& final(decoder).video_seek_to == (match old(decoder).video_summary {
                Some(s) => spec_seek_target(
                    (old(registers).pts_millis - FR_STEP - REWIND_ADJUST_DIFF) as i64,
                    s.timebase_inverse,
                ),
                None => old(decoder).video_seek_to as int,
            })
            &&& final(decoder).audio_seek_to == (match old(decoder).audio_summary {
                Some(s) => spec_seek_target(
                    (old(registers).pts_millis - FR_STEP - REWIND_ADJUST_DIFF) as i64,
                    s.timebase_inverse,
                ),
                None => old(decoder).audio_seek_to as int,
            })
        },
        !(msg is Pause || msg is Resume || msg is Stop || msg is SeekFinished
            || msg is UpVolume || msg is DownVolume || msg is Forward || msg is Rewind) ==> {
            &&& !handled
            &&& *final(decoder) == *old(decoder)
            &&& *final(player) == *old(player)
            &&& *final(registers) == *old(registers)
        },
{
    match msg {
        EventMessage::Pause => {
            player.pause();
            true
        },
        EventMessage::Resume => {
            player.resume();
            true
        },
        EventMessage::Stop => {
            decoder.stop();
            player.stop();
            true
        },
        EventMessage::SeekFinished => {
            player.seek_finished();
            true
        },
        EventMessage::UpVolume => {
            registers.up_volume();
            true
        },
        EventMessage::DownVolume => {
            registers.down_volume();
            true
        },
        EventMessage::Forward => {
            forward(decoder, player, registers);
            true
        },
        EventMessage::Rewind => {
            rewind(decoder, player, registers);
            true
        },
        _ => false,
    }
}

} // verus!
