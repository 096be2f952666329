use web2ws::common::{FrameMessage, VideoFrame};
use web2ws::rate::Rate;
use web2ws::viewer::{FileFrameDisplay, FrameDisplay, Viewer, ViewerError};

fn message(seq: u64, timestamp: u64) -> FrameMessage {
    FrameMessage {
        frame: VideoFrame {
            seq,
            data: vec![0xFF, 0xD8],
            timestamp,
            fps: Rate::from_bits((30.0f32 as f64).to_bits()),
        },
        sender_id: "sender1".to_string(),
    }
}

struct ClosedDisplay;

impl FrameDisplay for ClosedDisplay {
    fn display(&mut self, _frame: &VideoFrame) -> Result<(), ViewerError> {
        panic!("a closed display must not be shown a frame");
    }

    fn is_open(&self) -> bool {
        false
    }
}

struct BrokenDisplay;

impl FrameDisplay for BrokenDisplay {
    fn display(&mut self, _frame: &VideoFrame) -> Result<(), ViewerError> {
        Err(ViewerError::DisplayFailed("no surface".to_string()))
    }

    fn is_open(&self) -> bool {
        true
    }
}

#[test]
fn test_viewer_creation() {
    let display = Box::new(FileFrameDisplay::new());
    let viewer = Viewer::new(display);
    assert_eq!(viewer.frames_received(), 0);
    assert_eq!(viewer.last_seq(), 0);
}

#[test]
fn test_handle_frame() {
    let display = Box::new(FileFrameDisplay::new());
    let mut viewer = Viewer::new(display);

    let result = viewer.handle_frame(message(1, 1000));
    assert!(result.is_ok());
    assert_eq!(viewer.frames_received(), 1);
    assert_eq!(viewer.last_seq(), 1);
}

#[test]
fn test_handle_multiple_frames() {
    let display = Box::new(FileFrameDisplay::new());
    let mut viewer = Viewer::new(display);

    for i in 1..=5 {
        viewer.handle_frame(message(i, 1000 * i)).unwrap();
    }

    assert_eq!(viewer.frames_received(), 5);
    assert_eq!(viewer.last_seq(), 5);
}

#[test]
fn test_check_dropped_frames() {
    let display = Box::new(FileFrameDisplay::new());
    let mut viewer = Viewer::new(display);

    viewer.handle_frame(message(1, 1000)).unwrap();
    viewer.handle_frame(message(3, 3000)).unwrap();

    // Frame 2 was skipped
    let dropped = viewer.check_dropped_frames(2);
    assert_eq!(dropped, Some(1));
}

#[test]
fn no_gap_is_reported_before_the_first_frame_or_without_an_expectation() {
    let mut viewer = Viewer::new(Box::new(FileFrameDisplay::new()));
    assert_eq!(viewer.check_dropped_frames(0), None);
    assert_eq!(viewer.check_dropped_frames(5), None);
    viewer.handle_frame(message(4, 10)).unwrap();
    assert_eq!(viewer.check_dropped_frames(0), None);
    assert_eq!(viewer.check_dropped_frames(4), None);
    assert_eq!(viewer.check_dropped_frames(1), Some(3));
}

#[test]
fn gap_wraps_where_the_viewer_is_behind_the_expectation() {
    let mut viewer = Viewer::new(Box::new(FileFrameDisplay::new()));
    viewer.handle_frame(message(3, 10)).unwrap();
    assert_eq!(viewer.check_dropped_frames(5), Some(u64::MAX - 1));
}

#[test]
fn sequence_is_recorded_as_it_comes() {
    let mut viewer = Viewer::new(Box::new(FileFrameDisplay::new()));
    viewer.handle_frame(message(9, 10)).unwrap();
    viewer.handle_frame(message(2, 20)).unwrap();
    assert_eq!(viewer.last_seq(), 2);
    assert_eq!(viewer.frames_received(), 2);
    viewer.record(40);
    assert_eq!(viewer.last_seq(), 40);
    assert_eq!(viewer.frames_received(), 3);
}

#[test]
fn closed_display_rejects_the_frame() {
    let mut viewer = Viewer::new(Box::new(ClosedDisplay));
    let result = viewer.handle_frame(message(1, 1000));
    assert!(matches!(result, Err(ViewerError::DisplayClosed)));
    assert_eq!(viewer.frames_received(), 0);
    assert_eq!(viewer.last_seq(), 0);
}

#[test]
fn failing_display_leaves_the_counters_alone() {
    let mut viewer = Viewer::new(Box::new(BrokenDisplay));
    let result = viewer.handle_frame(message(6, 1000));
    assert!(matches!(result, Err(ViewerError::DisplayFailed(_))));
    assert_eq!(viewer.frames_received(), 0);
    assert_eq!(viewer.last_seq(), 0);
}

#[test]
fn file_display_keeps_what_it_is_shown() {
    let mut display = FileFrameDisplay::new();
    assert_eq!(display.frame_count(), 0);
    assert!(display.is_open());
    display.display(&message(1, 1).frame).unwrap();
    display.display(&message(2, 2).frame).unwrap();
    assert_eq!(display.frame_count(), 2);
}

#[test]
fn settle_counts_what_was_shown_and_hands_on_what_failed() {
    let mut viewer = Viewer::new(Box::new(FileFrameDisplay::new()));
    assert!(viewer.settle(4, Ok(())).is_ok());
    assert_eq!(viewer.frames_received(), 1);
    assert_eq!(viewer.last_seq(), 4);
    let failed = viewer.settle(5, Err(ViewerError::DisplayFailed("dark".to_string())));
    assert!(matches!(failed, Err(ViewerError::DisplayFailed(reason)) if reason == "dark"));
    let closed = viewer.settle(6, Err(ViewerError::DisplayClosed));
    assert!(matches!(closed, Err(ViewerError::DisplayClosed)));
    assert_eq!(viewer.frames_received(), 1);
    assert_eq!(viewer.last_seq(), 4);
}

#[test]
fn a_frame_is_let_in_to_an_open_display_only() {
    assert!(Viewer::let_in(true).is_ok());
    assert!(matches!(Viewer::let_in(false), Err(ViewerError::DisplayClosed)));
}
