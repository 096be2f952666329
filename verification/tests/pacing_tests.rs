use web2ws::bus::FrameBus;
use web2ws::camera::{Camera, CameraError};
use web2ws::pacer::{Pacing, NANOS_PER_SECOND};
use web2ws::rate::Rate;
use web2ws::sender::{CaptureError, FrameCapture, MockCamera};
use web2ws::source::{PacedSource, StartError, Tick};

fn rate(value: f64) -> Rate {
    Rate::from_bits(value.to_bits())
}

struct Flaky {
    calls: u32,
}

impl FrameCapture for Flaky {
    fn capture(&mut self) -> Result<Vec<u8>, CaptureError> {
        self.calls += 1;
        if self.calls == 2 {
            Err(CaptureError::Backend("glare".to_string()))
        } else {
            Ok(vec![self.calls as u8])
        }
    }
}

#[test]
fn camera_applies_fps_setting() {
    // 10 frames per second, 5 captures back to back that take no time.
    let mut camera = Camera::new(true).fps(rate(10.0)).quality(80).build().unwrap();
    let start: u64 = 5_000_000_000;
    let mut now = start;
    for _ in 0..5 {
        now = camera.capture_frame(now);
    }
    let elapsed = now - start;
    assert_eq!(elapsed, 400_000_000);
    // 0.4 s, within the 0.2 s allowed either way.
    assert!(elapsed >= 200_000_000);
    assert!(elapsed <= 600_000_000);
}

#[test]
fn a_slow_capture_is_not_waited_for_and_not_made_up_for() {
    let mut pacing = Pacing::new(100);
    assert_eq!(pacing.delay(1000), 0);
    pacing.started(1000);
    assert_eq!(pacing.next_due, Some(1100));
    assert_eq!(pacing.delay(1000), 100);
    assert_eq!(pacing.delay(1040), 60);
    assert_eq!(pacing.delay(1100), 0);
    // The cycle took 250: the next capture starts at once, and the one after
    // is due an interval later, not three intervals behind.
    assert_eq!(pacing.delay(1250), 0);
    pacing.started(1250);
    assert_eq!(pacing.delay(1250), 100);
    assert_eq!(pacing.next_due, Some(1350));
}

#[test]
fn camera_defaults_and_clamps() {
    let camera = Camera::new(true);
    assert!(camera.is_open());
    assert_eq!(camera.quality_in_use(), 85);
    assert_eq!(camera.frame_interval(), 33_333_333);
    assert_eq!(Camera::new(true).quality(5).quality_in_use(), 10);
    assert_eq!(Camera::new(true).quality(120).quality_in_use(), 95);
    assert_eq!(Camera::new(true).quality(5).quality(120).quality_in_use(), 95);
    assert_eq!(Camera::new(true).quality(10).quality_in_use(), 10);
    assert_eq!(Camera::new(true).quality(50).quality_in_use(), 50);
    assert_eq!(Camera::new(true).fps(rate(10.0)).frame_interval(), 100_000_000);
    assert_eq!(Camera::new(true).fps(rate(60.0)).frame_interval(), 16_666_666);
    // Below one frame per second the camera is paced at one.
    assert_eq!(Camera::new(true).fps(rate(0.0)).frame_interval(), 1_000_000_000);
    assert_eq!(Camera::new(true).fps(rate(0.25)).frame_interval(), 1_000_000_000);
    assert_eq!(Camera::new(true).fps(rate(f64::NAN)).frame_interval(), 1_000_000_000);
    assert_eq!(Camera::new(true).fps(rate(-3.0)).frame_interval(), 1_000_000_000);
    assert_eq!(Camera::new(true).fps(rate(f64::INFINITY)).frame_interval(), 0);
}

#[test]
fn camera_fps_zero_is_clamped() {
    // At 0 frames per second the camera is paced at one frame per second
    // and still delivers; only the settings check refuses the rate.
    let mut camera = Camera::new(true).fps(rate(0.0)).quality(80);
    camera.capture_started(0);
    assert_eq!(camera.capture_delay(150_000_000), 850_000_000);
    assert_eq!(camera.build().unwrap_err(), CameraError::NonPositiveFps);
}

#[test]
fn build_checks_the_device_first_and_then_the_rate() {
    assert_eq!(Camera::new(false).build().unwrap_err(), CameraError::NotOpen);
    assert_eq!(Camera::new(false).fps(rate(-1.0)).build().unwrap_err(), CameraError::NotOpen);
    assert_eq!(Camera::new(true).fps(rate(-1.0)).build().unwrap_err(), CameraError::NonPositiveFps);
    assert_eq!(Camera::new(true).fps(rate(-0.0)).build().unwrap_err(), CameraError::NonPositiveFps);
    assert!(Camera::new(true).fps(rate(0.001)).build().is_ok());
    assert!(Camera::new(true).fps(rate(f64::NAN)).build().is_ok());
    assert!(Camera::new(true).build().is_ok());
}

#[test]
fn source_is_idle_until_started() {
    let mut bus = FrameBus::new(100);
    let mut source = PacedSource::new("cam-1".to_string(), Box::new(MockCamera::new()), 85);
    assert!(!source.is_running());
    assert!(matches!(source.tick(0, &mut bus), Tick::Idle));
    assert_eq!(bus.published(), 0);
    assert_eq!(source.seq(), 0);

    assert_eq!(source.start(rate(0.0)).unwrap_err(), StartError::RateOutOfRange);
    assert_eq!(source.start(rate(-10.0)).unwrap_err(), StartError::RateOutOfRange);
    assert_eq!(source.start(rate(121.0)).unwrap_err(), StartError::RateOutOfRange);
    assert!(!source.is_running());

    assert!(source.start(rate(10.0)).is_ok());
    assert!(source.is_running());
    assert_eq!(source.interval(), 100_000_000);
    assert_eq!(NANOS_PER_SECOND, 1_000_000_000);

    // A running source keeps its rate.
    assert_eq!(source.start(rate(60.0)).unwrap_err(), StartError::AlreadyRunning);
    assert_eq!(source.interval(), 100_000_000);
}

#[test]
fn source_numbers_stamps_and_publishes() {
    let mut bus = FrameBus::new(100);
    let mut viewer = bus.subscribe();
    let mut source = PacedSource::new("cam-1".to_string(), Box::new(MockCamera::new()), 85);
    source.start(rate(10.0)).unwrap();

    let mut now: u64 = 1_000;
    let mut waited = 0;
    for expected in 1..=5u64 {
        let wait = source.delay(now);
        waited += wait;
        now += wait;
        assert!(matches!(source.tick(now, &mut bus), Tick::Published(seq) if seq == expected));
    }
    assert_eq!(waited, 400_000_000);
    assert_eq!(source.seq(), 5);
    for expected in 1..=5u64 {
        let envelope = viewer.try_recv(&bus).unwrap();
        assert_eq!(envelope.frame.seq, expected);
        assert_eq!(envelope.sender_id, "cam-1");
        assert_eq!(f64::from_bits(envelope.frame.fps.to_bits()), 10.0);
        assert!(envelope.frame.timestamp > 0);
    }
}

#[test]
fn failed_capture_costs_one_tick_and_no_sequence_number() {
    let mut bus = FrameBus::new(100);
    let mut viewer = bus.subscribe();
    let mut source = PacedSource::new("cam-2".to_string(), Box::new(Flaky { calls: 0 }), 85);
    source.start(rate(20.0)).unwrap();

    assert!(matches!(source.tick(0, &mut bus), Tick::Published(1)));
    assert_eq!(source.delay(0), 50_000_000);
    assert!(matches!(source.tick(50_000_000, &mut bus), Tick::CaptureFailed(_)));
    // The pacing goes on as after any tick.
    assert_eq!(source.delay(50_000_000), 50_000_000);
    assert_eq!(source.seq(), 1);
    assert_eq!(bus.published(), 1);
    assert!(matches!(source.tick(100_000_000, &mut bus), Tick::Published(2)));

    assert_eq!(viewer.try_recv(&bus).unwrap().frame.data, vec![1]);
    assert_eq!(viewer.try_recv(&bus).unwrap().frame.data, vec![3]);
}

#[test]
fn pacing_a_capture_waits_for_what_is_due() {
    let mut pacing = Pacing::new(100);
    assert_eq!(pacing.pace(1000), 1000);
    assert_eq!(pacing.next_due, Some(1100));
    assert_eq!(pacing.pace(1000), 1100);
    assert_eq!(pacing.next_due, Some(1200));
    // A late capture starts at once and the schedule starts again from it.
    assert_eq!(pacing.pace(1500), 1500);
    assert_eq!(pacing.next_due, Some(1600));

    let mut camera = Camera::new(true).fps(rate(10.0));
    assert_eq!(camera.capture_frame(7), 7);
    assert_eq!(camera.capture_delay(7), 100_000_000);
    assert_eq!(camera.capture_frame(50_000_007), 100_000_007);
}

#[test]
fn what_the_sender_made_is_published_as_it_is() {
    let mut bus = FrameBus::new(4);
    let mut viewer = bus.subscribe();
    let source = PacedSource::new("cam-9".to_string(), Box::new(MockCamera::new()), 85);
    let frame = web2ws::common::VideoFrame {
        seq: 41,
        data: vec![9, 8, 7],
        timestamp: 123_456,
        fps: rate(30.0),
    };
    let outcome = source.publish_made(rate(12.5), Ok(frame), &mut bus);
    assert!(matches!(outcome, Tick::Published(41)));
    let envelope = viewer.try_recv(&bus).unwrap();
    assert_eq!(envelope.frame.seq, 41);
    assert_eq!(envelope.frame.data, vec![9, 8, 7]);
    assert_eq!(envelope.frame.timestamp, 123_456);
    assert_eq!(f64::from_bits(envelope.frame.fps.to_bits()), 12.5);
    assert_eq!(envelope.sender_id, "cam-9");

    let failed = source.publish_made(
        rate(12.5),
        Err(CaptureError::Backend("unplugged".to_string())),
        &mut bus,
    );
    assert!(matches!(failed, Tick::CaptureFailed(CaptureError::Backend(reason)) if reason == "unplugged"));
    assert_eq!(bus.published(), 1);
}
