use web2ws::common::{FrameBuffer, VideoFrame};
use web2ws::rate::Rate;

fn fps(value: f32) -> Rate {
    Rate::from_bits((value as f64).to_bits())
}

fn fps_of(frame: &VideoFrame) -> f32 {
    f64::from_bits(frame.fps.to_bits()) as f32
}

#[test]
fn test_video_frame_creation() {
    let frame = VideoFrame {
        seq: 1,
        data: vec![0xFF, 0xD8], // JPEG header
        timestamp: 1000,
        fps: fps(30.0),
    };
    assert_eq!(frame.seq, 1);
    assert_eq!(frame.timestamp, 1000);
    assert_eq!(fps_of(&frame), 30.0);
}

#[test]
fn test_frame_buffer_store_and_get() {
    let mut buffer = FrameBuffer::new();
    let frame1 = VideoFrame { seq: 1, data: vec![1], timestamp: 100, fps: fps(30.0) };
    let frame2 = VideoFrame { seq: 2, data: vec![2], timestamp: 200, fps: fps(30.0) };

    buffer.store(frame1);
    assert_eq!(buffer.get().unwrap().seq, 1);

    let prev = buffer.store(frame2);
    assert_eq!(prev.unwrap().seq, 1);
    assert_eq!(buffer.get().unwrap().seq, 2);
}

#[test]
fn frame_buffer_starts_empty_and_take_empties_it() {
    let mut buffer = FrameBuffer::new();
    assert!(buffer.get().is_none());
    assert!(buffer.take().is_none());

    buffer.store(VideoFrame { seq: 7, data: vec![9, 9], timestamp: 5, fps: fps(15.0) });
    let taken = buffer.take().unwrap();
    assert_eq!(taken.seq, 7);
    assert_eq!(taken.data, vec![9, 9]);
    assert!(buffer.get().is_none());

    let fresh = FrameBuffer::default();
    assert!(fresh.get().is_none());
}

#[test]
fn video_frame_clone_keeps_every_field() {
    let frame = VideoFrame { seq: 3, data: vec![1, 2, 3], timestamp: 77, fps: fps(24.0) };
    let copy = frame.clone();
    assert_eq!(copy.seq, 3);
    assert_eq!(copy.data, vec![1, 2, 3]);
    assert_eq!(copy.timestamp, 77);
    assert_eq!(copy.fps, frame.fps);
}
