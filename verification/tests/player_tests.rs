use nt_player::decoder::{DecodeAction, FrameBuffers, MediaDecoder, MediaKind, StreamDesc};
use nt_player::entity::EventMessage;
use nt_player::error::{handle_result, safe_send, CustomError};
use nt_player::global::ControlRegisters;
use nt_player::log_builder::{get_log_format, LogLevel};
use nt_player::player::{
    forward, handle_media_message, rewind, AudioPlayer, Control, MediaPlayer, Player, State,
    TickStep, VideoPlayer,
};

fn all_states() -> Vec<State> {
    vec![
        State::Playing,
        State::Paused,
        State::Stopped,
        State::Seeking,
        State::SeekFinished,
        State::ReadyToPlay,
        State::ReadyToPause,
        State::ReadyToResume,
        State::ReadyToStop,
    ]
}

fn apply_control(player: &mut AudioPlayer, control: Control) {
    match control {
        Control::Play => player.play(),
        Control::Pause => player.pause(),
        Control::Resume => player.resume(),
        Control::Stop => player.stop(),
        Control::Seeking => player.seeking(),
        Control::SeekFinished => player.seek_finished(),
    }
}

fn audio_frame(pts_millis: i64) -> nt_player::decoder::AudioFrame {
    nt_player::decoder::AudioFrame {
        format: 8,
        data: vec![],
        pts: pts_millis,
        pts_millis,
        sample_rate: 44100,
        channels: 2,
        channel_layout: 3,
        volume: 50,
    }
}

fn video_frame(pts_millis: i64) -> nt_player::decoder::VideoFrame {
    nt_player::decoder::VideoFrame {
        format: 0,
        data: Default::default(),
        width: 2,
        height: 2,
        pts: pts_millis,
        pts_millis,
    }
}

fn video_stream_desc(duration: u64, nb_frames: i64) -> StreamDesc {
    StreamDesc {
        index: 0,
        kind: MediaKind::Video,
        nb_frames,
        duration,
        timebase_num: 1,
        timebase_den: 1000,
        has_decoder: true,
        decoder_name: "h264".to_string(),
        channels: 0,
        channel_layout: 0,
        sample_rate: 0,
        frame_size: 0,
        width: 640,
        height: 480,
    }
}

#[test]
fn transitions_are_total() {
    // From every state, every control call lands in the defined request
    // state, and the next observation settles it per the table.
    let controls = [
        (Control::Play, State::ReadyToPlay, State::Playing),
        (Control::Pause, State::ReadyToPause, State::Paused),
        (Control::Resume, State::ReadyToResume, State::Playing),
        (Control::Stop, State::ReadyToStop, State::Stopped),
        (Control::Seeking, State::Seeking, State::Seeking),
        (Control::SeekFinished, State::SeekFinished, State::Playing),
    ];
    for state in all_states() {
        for (control, requested, settled) in controls {
            let mut player = AudioPlayer::new();
            player.state = state;
            apply_control(&mut player, control);
            assert_eq!(player.state, requested);

            let mut buffers = FrameBuffers::new(50, 10, 5);
            let mut registers = ControlRegisters::new();
            let mut events = Vec::new();
            player.tick(&mut buffers, &mut registers, &mut events);
            assert_eq!(player.state, settled);
        }
    }
}

#[test]
fn media_player_controls_both_drivers() {
    let mut player = MediaPlayer::new();
    player.pause();
    assert_eq!(player.audio_player.state, State::ReadyToPause);
    assert_eq!(player.video_player.state, State::ReadyToPause);
    player.resume();
    assert_eq!(player.audio_player.state, State::ReadyToResume);
    assert_eq!(player.video_player.state, State::ReadyToResume);
    player.seeking();
    player.seek_finished();
    assert_eq!(player.audio_player.state, State::SeekFinished);
    player.stop();
    assert_eq!(player.video_player.state, State::ReadyToStop);
}

#[test]
fn audio_tick_publishes_the_play_clock() {
    let mut player = AudioPlayer::new();
    player.state = State::Playing;
    let mut buffers = FrameBuffers::new(50, 10, 5);
    let mut registers = ControlRegisters::new();
    let mut events = Vec::new();

    // Starvation is silent: an empty buffer changes nothing.
    let step = player.tick(&mut buffers, &mut registers, &mut events);
    assert_eq!(step, TickStep::Step);
    assert!(events.is_empty());
    assert_eq!(registers.pts_millis, 0);

    buffers.audio.push(audio_frame(120)).unwrap();
    player.tick(&mut buffers, &mut registers, &mut events);
    assert_eq!(registers.pts_millis, 120);
    assert_eq!(events.len(), 1);
    assert!(matches!(&events[0], EventMessage::RenderAudio(f) if f.pts_millis == 120));

    // While a seek is in flight the clock reads -1.
    player.state = State::Seeking;
    let step = player.tick(&mut buffers, &mut registers, &mut events);
    assert_eq!(step, TickStep::Idle);
    assert_eq!(registers.pts_millis, -1);
}

#[test]
fn paused_driver_leaves_the_buffer_alone() {
    let mut player = VideoPlayer::new();
    player.state = State::Paused;
    let mut buffers = FrameBuffers::new(50, 10, 5);
    let mut events = Vec::new();
    buffers.video.push(video_frame(40)).unwrap();
    let step = player.tick(&mut buffers, &mut events);
    assert_eq!(step, TickStep::Idle);
    assert_eq!(buffers.video.len(), 1);
    assert!(events.is_empty());
}

#[test]
fn no_audio_stream_starts_no_audio_driver() {
    // Scenario: a 10-second, 25 fps, video-only file. The audio driver's
    // start is a no-op; the video driver starts, announces the native
    // size, and emits one render event per buffered frame with strictly
    // increasing timestamps — 250 of them, one per frame of the file.
    let streams = vec![{
        let mut s = video_stream_desc(10000, 250);
        s.timebase_den = 1000;
        s.duration = 10000;
        s
    }];
    let decoder = MediaDecoder::new(&streams);
    assert!(decoder.audio_summary.is_none());
    let video_summary = decoder.video_summary.clone().expect("video summary");
    assert_eq!(video_summary.duration_millis, 10000);
    assert_eq!(video_summary.play_interval, 40);

    let mut audio = AudioPlayer::new();
    assert!(!audio.start(&decoder.audio_summary));
    assert_eq!(audio.state, State::Stopped);

    let mut video = VideoPlayer::new();
    let mut events = Vec::new();
    assert!(video.start(&decoder.video_summary, &mut events));
    assert_eq!(video.state, State::Playing);
    assert_eq!(events, vec![EventMessage::Resize(640, 480)]);
    events.clear();

    let mut buffers = FrameBuffers::new(50, 10, 5);
    let frame_count = 10000 / video_summary.play_interval; // 250 frames
    let mut rendered: Vec<i64> = Vec::new();
    for i in 0..frame_count {
        buffers
            .video
            .push(video_frame(i as i64 * video_summary.play_interval as i64))
            .unwrap();
        video.tick(&mut buffers, &mut events);
        match events.pop() {
            Some(EventMessage::RenderVideo(f)) => rendered.push(f.pts_millis),
            other => panic!("expected a render event, got {:?}", other),
        }
    }
    assert_eq!(rendered.len(), 250);
    assert!(rendered.windows(2).all(|w| w[0] < w[1]));
}

#[test]
fn forward_past_the_end_stops_the_session() {
    // Scenario: the clock reads 5000 ms, one forward step is 10000 ms,
    // and the media lasts 12000 ms: the target overshoots the end, so the
    // session stops and no seek is requested.
    let streams = vec![video_stream_desc(12000, 300)];
    let mut decoder = MediaDecoder::new(&streams);
    let mut player = MediaPlayer::new();
    let mut registers = ControlRegisters::new();
    registers.pts_millis = 5000;

    let stopped = forward(&mut decoder, &mut player, &registers);
    assert!(stopped);
    assert_eq!(player.audio_player.state, State::ReadyToStop);
    assert_eq!(player.video_player.state, State::ReadyToStop);
    assert_eq!(decoder.video_seek_to, -1);

    // The decode loop finishes without ever announcing a seek.
    let mut buffers = FrameBuffers::new(50, 10, 5);
    let mut events = Vec::new();
    assert_eq!(
        decoder.begin_iteration(&mut buffers, &mut events),
        DecodeAction::Finish
    );
    assert!(events.is_empty());
}

#[test]
fn forward_within_the_media_seeks() {
    let streams = vec![video_stream_desc(12000, 300)];
    let mut decoder = MediaDecoder::new(&streams);
    let mut player = MediaPlayer::new();
    let mut registers = ControlRegisters::new();
    registers.pts_millis = 1000;

    let stopped = forward(&mut decoder, &mut player, &registers);
    assert!(!stopped);
    assert_eq!(player.audio_player.state, State::Seeking);
    assert_eq!(player.video_player.state, State::Seeking);
    // 11000 ms at a 1/1000 timebase: 11 seconds of native units.
    assert_eq!(decoder.video_seek_to, 11000);
    assert!(!decoder.stop_flag);
}

#[test]
fn rewind_near_the_start_clamps_to_zero() {
    // Scenario: the clock reads 3000 ms; one step back is 10000 ms plus
    // the 2000 ms adjustment: the raw target of -9000 ms clamps to the
    // start.
    let streams = vec![video_stream_desc(12000, 300)];
    let mut decoder = MediaDecoder::new(&streams);
    let mut player = MediaPlayer::new();
    let mut registers = ControlRegisters::new();
    registers.pts_millis = 3000;

    rewind(&mut decoder, &mut player, &registers);
    assert_eq!(player.audio_player.state, State::Seeking);
    assert_eq!(player.video_player.state, State::Seeking);
    assert_eq!(decoder.video_seek_to, 0);
}

#[test]
fn media_player_start_follows_the_summaries() {
    let streams = vec![video_stream_desc(12000, 300)];
    let decoder = MediaDecoder::new(&streams);
    let mut player = MediaPlayer::new();
    let mut events = Vec::new();
    let result = player.start(&decoder.audio_summary, &decoder.video_summary, &mut events);
    assert!(result.is_ok());
    assert_eq!(player.audio_player.state, State::Stopped);
    assert_eq!(player.video_player.state, State::Playing);
    assert_eq!(events, vec![EventMessage::Resize(640, 480)]);
}

#[test]
fn volume_steps_stay_bounded() {
    let mut registers = ControlRegisters::new();
    assert_eq!(registers.volume, 50);
    registers.up_volume();
    assert_eq!(registers.volume, 60);
    registers.down_volume();
    registers.down_volume();
    assert_eq!(registers.volume, 40);

    // The register never leaves [0, MAX_VOLUME].
    for _ in 0..500 {
        registers.up_volume();
    }
    assert_eq!(registers.volume, nt_player::global::MAX_VOLUME);
    for _ in 0..500 {
        registers.down_volume();
    }
    assert_eq!(registers.volume, 0);
    registers.down_volume();
    assert_eq!(registers.volume, 0);
}

#[test]
fn handle_result_turns_errors_into_events() {
    let mut events = Vec::new();
    let ok: Result<u32, CustomError> = Ok(7);
    assert_eq!(handle_result(ok, &mut events), Some(7));
    assert!(events.is_empty());

    let err: Result<u32, CustomError> = Err(CustomError::new("boom".to_string()));
    assert_eq!(handle_result(err, &mut events), None);
    assert_eq!(events, vec![EventMessage::ShowError("boom".to_string())]);
}

#[test]
fn custom_error_carries_its_message() {
    let e = CustomError::new("cannot open media".to_string());
    assert_eq!(e.message().as_str(), "cannot open media");
}

#[test]
fn safe_send_swallows_both_outcomes() {
    let (sender, receiver) = crossbeam::channel::unbounded::<u32>();
    safe_send(sender.send(1));
    assert_eq!(receiver.recv(), Ok(1));
    drop(receiver);
    // The receiver is gone: the send fails, and the failure is swallowed.
    safe_send(sender.send(2));
}

#[test]
fn log_format_follows_the_level() {
    assert_eq!(get_log_format(LogLevel::Off), "");
    let full = "{h({l})} {d(%Y-%m-%d %H:%M:%S:%s)} [{f}:{L}] {M}:    {m}{n}\n";
    let simple = "{h({l})} {d(%Y-%m-%d %H:%M:%S:%s)}:   {m}{n}\n";
    assert_eq!(get_log_format(LogLevel::Trace), full);
    assert_eq!(get_log_format(LogLevel::Debug), full);
    assert_eq!(get_log_format(LogLevel::Error), simple);
    assert_eq!(get_log_format(LogLevel::Warn), simple);
    assert_eq!(get_log_format(LogLevel::Info), simple);
}

#[test]
fn media_messages_dispatch_to_the_engine() {
    let streams = vec![video_stream_desc(12000, 300)];
    let mut decoder = MediaDecoder::new(&streams);
    let mut player = MediaPlayer::new();
    let mut registers = ControlRegisters::new();

    assert!(handle_media_message(
        &EventMessage::Pause,
        &mut decoder,
        &mut player,
        &mut registers
    ));
    assert_eq!(player.audio_player.state, State::ReadyToPause);
    assert!(handle_media_message(
        &EventMessage::Resume,
        &mut decoder,
        &mut player,
        &mut registers
    ));
    assert_eq!(player.video_player.state, State::ReadyToResume);

    assert!(handle_media_message(
        &EventMessage::UpVolume,
        &mut decoder,
        &mut player,
        &mut registers
    ));
    assert_eq!(registers.volume, 60);
    assert!(handle_media_message(
        &EventMessage::DownVolume,
        &mut decoder,
        &mut player,
        &mut registers
    ));
    assert_eq!(registers.volume, 50);

    registers.pts_millis = 1000;
    assert!(handle_media_message(
        &EventMessage::Rewind,
        &mut decoder,
        &mut player,
        &mut registers
    ));
    assert_eq!(player.audio_player.state, State::Seeking);
    assert_eq!(decoder.video_seek_to, 0);

    assert!(handle_media_message(
        &EventMessage::SeekFinished,
        &mut decoder,
        &mut player,
        &mut registers
    ));
    assert_eq!(player.audio_player.state, State::SeekFinished);

    // Messages outside the transport are left to the shell.
    assert!(!handle_media_message(
        &EventMessage::Quit,
        &mut decoder,
        &mut player,
        &mut registers
    ));

    assert!(handle_media_message(
        &EventMessage::Stop,
        &mut decoder,
        &mut player,
        &mut registers
    ));
    assert!(decoder.stop_flag);
    assert_eq!(player.video_player.state, State::ReadyToStop);
}
