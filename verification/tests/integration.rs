// Integration tests for web2ws
use web2ws::bus::TryRecvError;
use web2ws::common::{ClientType, FrameMessage, Message, VideoFrame};
use web2ws::config::{Config, Role};
use web2ws::rate::Rate;
use web2ws::sender::{CameraSender, MockCamera};
use web2ws::session::{Reply, Session};
use web2ws::signaling_server::SignalingServer;
use web2ws::viewer::{FileFrameDisplay, FrameDisplay, Viewer, ViewerError};

fn fps(value: f32) -> Rate {
    Rate::from_bits((value as f64).to_bits())
}

fn fps_of(config: &Config) -> f32 {
    f64::from_bits(config.fps.to_bits()) as f32
}

fn bind() -> String {
    "127.0.0.1:9001".to_string()
}

#[test]
fn test_spec_config_defaults() {
    let config = Config::default_server();
    assert_eq!(fps_of(&config), 30.0);
    assert_eq!(config.quality, 85);
    assert_eq!(config.role, Role::Server);
}

#[test]
fn test_spec_fps_range() {
    let valid_fps = vec![1.0, 30.0, 60.0, 120.0];
    for value in valid_fps {
        let config = Config::new(fps(value), 85, bind(), Role::Server);
        assert!(config.is_ok(), "FPS {} should be valid", value);
    }

    let invalid_fps = vec![0.5, 150.0];
    for value in invalid_fps {
        let config = Config::new(fps(value), 85, bind(), Role::Server);
        assert!(config.is_err(), "FPS {} should be invalid", value);
    }
}

#[test]
fn test_spec_quality_adjustable() {
    let valid_qualities = vec![10, 50, 85, 95];
    for quality in valid_qualities {
        let config = Config::new(fps(30.0), quality, bind(), Role::Server);
        assert!(config.is_ok(), "Quality {} should be valid", quality);
    }

    let invalid_qualities = vec![5, 100];
    for quality in invalid_qualities {
        let config = Config::new(fps(30.0), quality, bind(), Role::Server);
        assert!(config.is_err(), "Quality {} should be invalid", quality);
    }
}

#[test]
fn test_spec_three_services() {
    let server_config =
        Config::new(fps(30.0), 85, bind(), Role::Server).expect("Server config should be valid");
    assert_eq!(server_config.role, Role::Server);

    let sender_config =
        Config::new(fps(30.0), 85, bind(), Role::Sender).expect("Sender config should be valid");
    assert_eq!(sender_config.role, Role::Sender);

    let viewer_config =
        Config::new(fps(30.0), 85, bind(), Role::Viewer).expect("Viewer config should be valid");
    assert_eq!(viewer_config.role, Role::Viewer);
}

#[test]
fn test_spec_signaling_server_basic() {
    let config = Config::default_server();
    let mut server = SignalingServer::new(config);

    // Register sender
    let (sender_id, _rx) = server.register(ClientType::Sender);
    assert!(!sender_id.is_empty());

    // Register viewers
    let (_viewer1_id, _rx1) = server.register(ClientType::Viewer);
    let (_viewer2_id, _rx2) = server.register(ClientType::Viewer);

    assert_eq!(server.sender_count(), 1);
    assert_eq!(server.viewer_count(), 2);

    // Unregister
    server.unregister(&sender_id);
    assert_eq!(server.sender_count(), 0);
}

#[test]
fn test_spec_frame_broadcast() {
    let config = Config::default_server();
    let mut server = SignalingServer::new(config);

    // Register viewer to receive frames
    let (_viewer_id, rx) = server.register(ClientType::Viewer);
    let mut rx = rx.unwrap();

    // Broadcast frame from sender
    let frame = VideoFrame {
        seq: 1,
        data: vec![0xFF, 0xD8, 0xFF, 0xE0], // JPEG header
        timestamp: 1000,
        fps: fps(30.0),
    };

    let msg = FrameMessage { frame, sender_id: "sender1".to_string() };

    let result = server.broadcast_frame(msg.clone());
    assert!(result.is_ok());

    // Verify broadcast received
    let received = rx.try_recv(server.bus());
    assert!(received.is_ok());
    let received_msg = received.unwrap();
    assert_eq!(received_msg.sender_id, "sender1");
    assert_eq!(received_msg.frame.seq, 1);
}

#[test]
fn test_spec_sender_frame_capture() {
    let mock = Box::new(MockCamera::new());
    let mut sender = CameraSender::new(mock, 85);

    // Capture frames
    let frame1 = sender.next_frame().unwrap();
    assert_eq!(frame1.seq, 1);
    assert!(!frame1.data.is_empty());

    let frame2 = sender.next_frame().unwrap();
    assert_eq!(frame2.seq, 2);
    assert!(frame2.timestamp >= frame1.timestamp);
}

// Mock viewer for testing
struct MockViewer;

impl MockViewer {
    fn new() -> Self {
        MockViewer
    }
}

impl FrameDisplay for MockViewer {
    fn display(&mut self, _frame: &VideoFrame) -> Result<(), ViewerError> {
        Ok(())
    }

    fn is_open(&self) -> bool {
        true
    }
}

#[test]
fn test_spec_viewer_receives_frames() {
    let mut viewer = Viewer::new(Box::new(MockViewer::new()));

    let frame = VideoFrame { seq: 1, data: vec![0xFF, 0xD8], timestamp: 1000, fps: fps(30.0) };

    let msg = FrameMessage { frame, sender_id: "sender1".to_string() };

    let result = viewer.handle_frame(msg);
    assert!(result.is_ok());
    assert_eq!(viewer.frames_received(), 1);
}

#[test]
fn test_spec_frame_interval() {
    let fps_values = vec![(30.0, 33), (60.0, 16), (10.0, 100)];

    for (value, expected_interval) in fps_values {
        let config =
            Config::new(fps(value), 85, bind(), Role::Server).expect("Config should be valid");
        assert_eq!(config.frame_interval_ms(), expected_interval);
    }
}

#[test]
fn test_spec_no_node_docker() {
    assert!(true); // Verify test runs
}

#[test]
fn test_spec_offline_network() {
    let config =
        Config::new(fps(30.0), 85, bind(), Role::Server).expect("Localhost config should work");
    assert_eq!(config.bind, "127.0.0.1:9001");
}

#[test]
fn test_spec_few_users() {
    let config = Config::default_server();
    let mut server = SignalingServer::new(config);

    // Register multiple users (small numbers expected)
    for i in 0..5 {
        if i % 2 == 0 {
            server.register(ClientType::Sender);
        } else {
            server.register(ClientType::Viewer);
        }
    }

    assert_eq!(server.sender_count(), 3);
    assert_eq!(server.viewer_count(), 2);
}

#[test]
fn one_sender_two_viewers_end_to_end() {
    let mut server = SignalingServer::new(Config::default_server());
    let (sender_id, none) = server.register(ClientType::Sender);
    assert!(none.is_none());
    let (_, rx1) = server.register(ClientType::Viewer);
    let (_, rx2) = server.register(ClientType::Viewer);
    let mut rx1 = rx1.unwrap();
    let mut rx2 = rx2.unwrap();

    let frame = VideoFrame { seq: 1, data: vec![0xFF, 0xD8], timestamp: 1000, fps: fps(30.0) };
    server.broadcast_frame(FrameMessage { frame, sender_id: sender_id.clone() }).unwrap();

    let mut viewer1 = Viewer::new(Box::new(FileFrameDisplay::new()));
    let mut viewer2 = Viewer::new(Box::new(FileFrameDisplay::new()));
    let got1 = rx1.try_recv(server.bus()).unwrap();
    let got2 = rx2.try_recv(server.bus()).unwrap();
    assert_eq!(got1.frame.data, vec![0xFF, 0xD8]);
    assert_eq!(got1.frame.timestamp, 1000);
    assert_eq!(got2.sender_id, sender_id);
    viewer1.handle_frame(got1).unwrap();
    viewer2.handle_frame(got2).unwrap();

    assert_eq!(viewer1.frames_received(), 1);
    assert_eq!(viewer1.last_seq(), 1);
    assert_eq!(viewer2.frames_received(), 1);
    assert_eq!(viewer2.last_seq(), 1);
    assert_eq!(rx1.try_recv(server.bus()).unwrap_err(), TryRecvError::Empty);
    assert_eq!(rx2.try_recv(server.bus()).unwrap_err(), TryRecvError::Empty);
}

#[test]
fn sessions_register_relay_and_clean_up() {
    let mut server = SignalingServer::new(Config::default_server());
    let mut camera = Session::new();
    let mut watcher = Session::new();
    assert!(watcher.poll(&server).is_none());

    let register = |role| Message::Register { client_id: "named-by-client".to_string(), client_type: role };
    assert_eq!(camera.handle_message(&mut server, register(ClientType::Sender)), Reply::Nothing);
    assert_eq!(watcher.handle_message(&mut server, register(ClientType::Viewer)), Reply::Nothing);
    assert_eq!(server.sender_count(), 1);
    assert_eq!(server.viewer_count(), 1);
    assert!(!server.get_client_ids().contains(&"named-by-client".to_string()));
    assert!(camera.poll(&server).is_none());
    assert_eq!(watcher.poll(&server).unwrap().unwrap_err(), TryRecvError::Empty);

    assert_eq!(camera.handle_message(&mut server, Message::Ping), Reply::Pong);
    assert_eq!(camera.handle_message(&mut server, Message::Pong), Reply::Nothing);
    assert_eq!(
        camera.handle_message(&mut server, Message::Error("oops".to_string())),
        Reply::Nothing
    );
    assert_eq!(server.bus().published(), 0);

    let frame = VideoFrame { seq: 1, data: vec![1, 2], timestamp: 5, fps: fps(30.0) };
    let message = Message::Frame(FrameMessage { frame, sender_id: "cam".to_string() });
    assert_eq!(camera.handle_message(&mut server, message), Reply::Nothing);
    let got = watcher.poll(&server).unwrap().unwrap();
    assert_eq!(got.frame.seq, 1);
    assert_eq!(got.sender_id, "cam");

    // Registering again on the same connection replaces the entry.
    assert_eq!(watcher.handle_message(&mut server, register(ClientType::Sender)), Reply::Nothing);
    assert_eq!(server.sender_count(), 2);
    assert_eq!(server.viewer_count(), 0);
    assert!(watcher.poll(&server).is_none());

    camera.close(&mut server);
    assert_eq!(server.sender_count(), 1);
    watcher.close(&mut server);
    assert_eq!(server.sender_count() + server.viewer_count(), 0);
    Session::new().close(&mut server);
    assert!(server.get_client_ids().is_empty());
}
