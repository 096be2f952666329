use web2ws::sender::{
    generate_mock_frame_data, CameraCapture, CameraSender, CaptureError, FrameCapture, MockCamera,
};

struct FailingCamera {
    calls: u32,
}

impl FrameCapture for FailingCamera {
    fn capture(&mut self) -> Result<Vec<u8>, CaptureError> {
        self.calls += 1;
        if self.calls % 2 == 0 {
            Err(CaptureError::Backend("device busy".to_string()))
        } else {
            Ok(vec![self.calls as u8])
        }
    }
}

#[test]
fn test_camera_sender_creation() {
    let mock = Box::new(MockCamera::new());
    let sender = CameraSender::new(mock, 85);
    assert_eq!(sender.seq(), 0);
}

#[test]
fn test_next_frame() {
    let mock = Box::new(MockCamera::new());
    let mut sender = CameraSender::new(mock, 85);

    let frame = sender.next_frame().unwrap();
    assert_eq!(frame.seq, 1);
    assert!(!frame.data.is_empty());
    assert!(frame.timestamp > 0);

    let frame2 = sender.next_frame().unwrap();
    assert_eq!(frame2.seq, 2);
    assert!(frame2.timestamp >= frame.timestamp);
}

#[test]
fn test_frame_sequence_increment() {
    let mock = Box::new(MockCamera::new());
    let mut sender = CameraSender::new(mock, 85);

    for i in 1..=5 {
        let frame = sender.next_frame().unwrap();
        assert_eq!(frame.seq, i);
    }
}

#[test]
fn sender_keeps_its_quality_and_reports_thirty_frames_per_second() {
    let mut sender = CameraSender::new(Box::new(MockCamera::new()), 70);
    assert_eq!(sender.quality(), 70);
    let frame = sender.next_frame().unwrap();
    assert_eq!(f64::from_bits(frame.fps.to_bits()), 30.0);
    assert_eq!(sender.quality(), 70);
}

#[test]
fn mock_camera_payload_grows_with_the_count() {
    let mut camera = MockCamera::new();
    let first = camera.capture().unwrap();
    assert_eq!(first, vec![0xFF, 0xD8, 0xFF, 0xE0, 1, 0xFF, 0xD9]);
    let second = camera.capture().unwrap();
    assert_eq!(second, vec![0xFF, 0xD8, 0xFF, 0xE0, 2, 2, 0xFF, 0xD9]);
    for _ in 2..99 {
        camera.capture().unwrap();
    }
    // The 99th capture carries 99 filler bytes, the 100th none.
    let mut camera = MockCamera::new();
    let mut last = Vec::new();
    for _ in 0..99 {
        last = camera.capture().unwrap();
    }
    assert_eq!(last.len(), 4 + 99 + 2);
    assert!(last[4..103].iter().all(|&b| b == 99));
    let hundredth = camera.capture().unwrap();
    assert_eq!(hundredth, vec![0xFF, 0xD8, 0xFF, 0xE0, 0xFF, 0xD9]);
}

#[test]
fn mock_camera_filler_is_the_count_cut_to_a_byte() {
    let mut camera = MockCamera::new();
    let mut payload = Vec::new();
    for _ in 0..257 {
        payload = camera.capture().unwrap();
    }
    // 257 % 100 = 57 filler bytes of value 257 % 256 = 1.
    assert_eq!(payload.len(), 4 + 57 + 2);
    assert!(payload[4..61].iter().all(|&b| b == 1));
}

#[test]
fn camera_capture_opens_for_any_device_and_captures_like_the_mock() {
    let mut capture = CameraCapture::new("/dev/video0").unwrap();
    let mut mock = MockCamera::new();
    assert_eq!(capture.capture().unwrap(), mock.capture().unwrap());
    assert_eq!(capture.capture().unwrap(), mock.capture().unwrap());
}

#[test]
fn failed_capture_uses_up_no_sequence_number() {
    let mut sender = CameraSender::new(Box::new(FailingCamera { calls: 0 }), 85);
    assert_eq!(sender.next_frame().unwrap().seq, 1);
    assert!(matches!(sender.next_frame(), Err(CaptureError::Backend(_))));
    assert_eq!(sender.seq(), 1);
    assert_eq!(sender.next_frame().unwrap().seq, 2);
    assert!(sender.next_frame().is_err());
    assert_eq!(sender.next_frame().unwrap().seq, 3);
}

#[test]
fn stamp_numbers_the_frame_or_fails_without_a_clock() {
    let mut sender = CameraSender::new(Box::new(MockCamera::new()), 85);
    let frame = sender.stamp(vec![1, 2, 3], Some(1234)).unwrap();
    assert_eq!(frame.seq, 1);
    assert_eq!(frame.data, vec![1, 2, 3]);
    assert_eq!(frame.timestamp, 1234);
    let failed = sender.stamp(vec![4], None);
    assert!(matches!(failed, Err(CaptureError::ClockBeforeEpoch)));
    assert_eq!(sender.seq(), 1);
    assert_eq!(sender.stamp(vec![5], Some(1235)).unwrap().seq, 2);
}

#[test]
fn mock_frame_data_is_a_minimal_jpeg() {
    let data = generate_mock_frame_data();
    assert_eq!(
        data,
        vec![
            0xFF, 0xD8, 0xFF, 0xE0, 0x00, 0x10, 0x4A, 0x46, 0x49, 0x46, 0x00, 0x01, 0x01, 0x00,
            0x00, 0x01, 0x00, 0x01, 0x00, 0x00, 0xFF, 0xD9,
        ]
    );
}
