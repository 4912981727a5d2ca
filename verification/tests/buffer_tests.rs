use nt_player::decoder::{
    DecodeAction, FrameBuffers, MediaDecoder, MediaKind, StreamDesc,
};
use nt_player::frame_buffer::FrameBuffer;

fn video_stream_desc() -> StreamDesc {
    StreamDesc {
        index: 0,
        kind: MediaKind::Video,
        nb_frames: 250,
        duration: 250,
        timebase_num: 1,
        timebase_den: 25,
        has_decoder: true,
        decoder_name: "h264".to_string(),
        channels: 0,
        channel_layout: 0,
        sample_rate: 0,
        frame_size: 0,
        width: 640,
        height: 480,
    }
}

fn video_frame(pts_millis: i64) -> nt_player::decoder::VideoFrame {
    nt_player::decoder::VideoFrame {
        format: 0,
        data: Default::default(),
        width: 2,
        height: 2,
        pts: pts_millis,
        pts_millis,
    }
}

#[test]
fn buffer_capacity_law() {
    // Pushing C items succeeds; one more fails without corrupting the
    // queue; popping C times drains it in order and once more is empty.
    let capacity: usize = 10;
    let mut buffer: FrameBuffer<u32> = FrameBuffer::new(capacity);
    for i in 0..capacity {
        assert!(buffer.push(i as u32).is_ok());
    }
    assert!(buffer.is_full());
    assert_eq!(buffer.push(999), Err(999));
    assert_eq!(buffer.len(), capacity);
    for i in 0..capacity {
        assert_eq!(buffer.pop(), Some(i as u32));
    }
    assert_eq!(buffer.pop(), None);
    assert!(buffer.is_empty());
}

#[test]
fn buffer_keeps_fifo_order() {
    let mut buffer: FrameBuffer<&str> = FrameBuffer::new(3);
    buffer.push("first").unwrap();
    buffer.push("second").unwrap();
    assert_eq!(buffer.pop(), Some("first"));
    buffer.push("third").unwrap();
    assert_eq!(buffer.pop(), Some("second"));
    assert_eq!(buffer.pop(), Some("third"));
    assert_eq!(buffer.pop(), None);
}

#[test]
fn buffer_zero_capacity_accepts_nothing() {
    let mut buffer: FrameBuffer<u8> = FrameBuffer::new(0);
    assert_eq!(buffer.push(1), Err(1));
    assert_eq!(buffer.pop(), None);
}

#[test]
fn backpressure_reads_nothing_while_full() {
    // Scenario: the video buffer holds its full 10 frames and no consumer
    // makes progress; two decode-loop observations in a row must both ask
    // to wait, and no packet read may happen in between.
    let streams = vec![video_stream_desc()];
    let mut decoder = MediaDecoder::new(&streams);
    let mut buffers = FrameBuffers::new(50, 10, 5);
    let mut events = Vec::new();
    for i in 0..10 {
        assert!(buffers.video.push(video_frame(i * 40)).is_ok());
    }
    assert!(buffers.video.is_full());

    let mut packets_read: u32 = 0;
    for _ in 0..2 {
        match decoder.begin_iteration(&mut buffers, &mut events) {
            DecodeAction::ReadPacket => packets_read += 1,
            DecodeAction::Wait => {}
            other => panic!("unexpected decode action: {:?}", other),
        }
    }
    assert_eq!(packets_read, 0);
    assert_eq!(buffers.video.len(), 10);
    assert!(events.is_empty());

    // Once the consumer drains one frame, reading resumes.
    buffers.video.pop();
    assert_eq!(
        decoder.begin_iteration(&mut buffers, &mut events),
        DecodeAction::ReadPacket
    );
}
