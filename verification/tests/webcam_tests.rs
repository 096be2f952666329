use web2ws::webcam::{
    encode_rgb_jpeg, test_pattern, RawFrame, WebcamCapture, WebcamError, PATTERN_HEIGHT,
    PATTERN_WIDTH,
};

fn is_jpeg(bytes: &[u8]) -> bool {
    bytes.len() > 100
        && bytes[0] == 0xFF
        && bytes[1] == 0xD8
        && bytes[bytes.len() - 2] == 0xFF
        && bytes[bytes.len() - 1] == 0xD9
}

#[test]
fn test_webcam_initialization() {
    let webcam = WebcamCapture::new(false);
    assert!(webcam.is_ok(), "Failed to initialize webcam");
    assert!(!webcam.unwrap().is_available());
    assert!(WebcamCapture::new(true).unwrap().is_available());
}

#[test]
fn test_webcam_capture_frame() {
    let webcam = WebcamCapture::new(false).expect("Failed to initialize webcam");
    let frame_data = webcam.capture_frame(None).unwrap();
    assert!(!frame_data.is_empty(), "Frame data should not be empty");
    assert!(frame_data.len() > 100, "Frame data should be substantial");
}

#[test]
fn test_webcam_frame_format() {
    let webcam = WebcamCapture::new(false).expect("Failed to initialize webcam");
    let frame_data = webcam.capture_frame(None).unwrap();
    assert!(frame_data.len() >= 2, "Frame data should be at least 2 bytes");
    assert_eq!(frame_data[0], 0xFF, "JPEG should start with 0xFF");
    assert_eq!(frame_data[1], 0xD8, "JPEG should have 0xD8 as second byte");
}

#[test]
fn test_webcam_multiple_captures() {
    let webcam = WebcamCapture::new(false).expect("Failed to initialize webcam");
    let first = webcam.capture_frame(None).unwrap();
    for i in 0..3 {
        let frame_data = webcam.capture_frame(None).unwrap();
        assert!(!frame_data.is_empty(), "Frame {} should not be empty", i);
        assert_eq!(frame_data, first);
    }
    assert_eq!(webcam.create_test_pattern().unwrap(), first);
}

#[test]
fn test_pattern_is_a_gradient() {
    let frame = test_pattern();
    assert_eq!(frame.width, 640);
    assert_eq!(frame.height, 480);
    assert_eq!((PATTERN_WIDTH, PATTERN_HEIGHT), (640, 480));
    assert_eq!(frame.rgb.len(), 640 * 480 * 3);
    let pixel = |x: usize, y: usize| {
        let at = (y * 640 + x) * 3;
        (frame.rgb[at], frame.rgb[at + 1], frame.rgb[at + 2])
    };
    assert_eq!(pixel(0, 0), (0, 0, 0));
    assert_eq!(pixel(639, 0), (254, 0, 145));
    assert_eq!(pixel(0, 479), (0, 254, 109));
    assert_eq!(pixel(639, 479), (254, 254, 254));
    assert_eq!(pixel(320, 240), (127, 127, 127));
    for (x, y) in [(1usize, 2usize), (100, 7), (333, 444), (638, 1)] {
        let expected = (
            (x * 255 / 640) as u8,
            (y * 255 / 480) as u8,
            ((x + y) * 255 / 1120) as u8,
        );
        assert_eq!(pixel(x, y), expected);
    }
}

#[test]
fn a_grabbed_image_is_compressed() {
    let webcam = WebcamCapture::new(true).unwrap();
    let grey = RawFrame { width: 16, height: 8, rgb: vec![128; 16 * 8 * 3] };
    let jpeg = webcam.capture_frame(Some(grey)).unwrap();
    assert!(is_jpeg(&jpeg));
    // The encoding depends on the pixels.
    let white = RawFrame { width: 16, height: 8, rgb: vec![255; 16 * 8 * 3] };
    let other = encode_rgb_jpeg(white).unwrap();
    assert!(is_jpeg(&other));
    assert_ne!(jpeg, other);
    assert_ne!(jpeg, vec![128; 16 * 8 * 3]);
    // The same image gives the same bytes.
    let again = RawFrame { width: 16, height: 8, rgb: vec![128; 16 * 8 * 3] };
    assert_eq!(encode_rgb_jpeg(again).unwrap(), jpeg);
}

#[test]
fn a_webcam_without_an_image_fails() {
    let webcam = WebcamCapture::new(true).unwrap();
    assert_eq!(webcam.capture_frame(None).unwrap_err(), WebcamError::NoImage);
}

#[test]
fn images_that_cannot_be_compressed_are_refused() {
    let short = RawFrame { width: 4, height: 4, rgb: vec![0; 47] };
    assert_eq!(encode_rgb_jpeg(short).unwrap_err(), WebcamError::BufferTooSmall);
    let exact = RawFrame { width: 4, height: 4, rgb: vec![0; 48] };
    assert!(encode_rgb_jpeg(exact).is_ok());
    let long = RawFrame { width: 4, height: 4, rgb: vec![0; 60] };
    assert!(encode_rgb_jpeg(long).is_ok());
    let flat = RawFrame { width: 0, height: 4, rgb: vec![] };
    assert_eq!(encode_rgb_jpeg(flat).unwrap_err(), WebcamError::InvalidSize);
    let thin = RawFrame { width: 4, height: 0, rgb: vec![0; 3] };
    assert_eq!(encode_rgb_jpeg(thin).unwrap_err(), WebcamError::InvalidSize);
    let wide = RawFrame { width: 65536, height: 1, rgb: vec![0; 65536 * 3] };
    assert_eq!(encode_rgb_jpeg(wide).unwrap_err(), WebcamError::InvalidSize);
    let widest = RawFrame { width: 65535, height: 1, rgb: vec![0; 65535 * 3] };
    assert!(encode_rgb_jpeg(widest).is_ok());
    let huge = RawFrame { width: u32::MAX, height: u32::MAX, rgb: vec![0; 10] };
    assert_eq!(encode_rgb_jpeg(huge).unwrap_err(), WebcamError::BufferTooSmall);
}
