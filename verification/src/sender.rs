//! The sending side: capture backends and the sender that numbers and stamps
//! what they capture.

use vstd::prelude::*;
use crate::clock::unix_time_millis;
use crate::common::VideoFrame;
use crate::rate::Rate;
use crate::rate::THIRTY_FPS_BITS;

verus! {

/// Why no frame was produced.
#[derive(Debug)]
pub enum CaptureError {
    /// The capture backend failed.
    Backend(String),
    /// The wall clock stands before the Unix epoch.
    ClockBeforeEpoch,
}

/// A source of compressed image payloads.
pub trait FrameCapture: Send + Sync {
    /// Captures one payload.
    fn capture(&mut self) -> Result<Vec<u8>, CaptureError>;
}

/// The payload the mock camera produces for its `count`-th capture: a JPEG
/// start marker, `count % 100` filler bytes of value `count % 256`, and a
/// JPEG end marker.
pub open spec fn mock_payload(count: u64) -> Seq<u8> {
    seq![0xFFu8, 0xD8u8, 0xFFu8, 0xE0u8] + Seq::new((count % 100) as nat, |i: int| (count % 256) as u8)
        + seq![0xFFu8, 0xD9u8]
}

/// A deterministic capture backend that produces synthetic payloads of
/// varying size.
pub struct MockCamera {
    seq: u64,
}

impl MockCamera {
    /// The number of captures made so far, modulo 2^64.
    pub closed spec fn count(&self) -> u64 {
        self.seq
    }

    /// A mock camera that has captured nothing yet.
    pub fn new() -> (camera: MockCamera)
        ensures
            camera.count() == 0,
    {
        MockCamera { seq: 0 }
    }
}

impl FrameCapture for MockCamera {
    fn capture(&mut self) -> (captured: Result<Vec<u8>, CaptureError>)
        ensures
            final(self).count() == if old(self).count() == u64::MAX {
                0
            } else {
                (old(self).count() + 1) as u64
            },
            captured is Ok,
            captured->Ok_0@ == mock_payload(final(self).count()),
    {
        self.seq = self.seq.wrapping_add(1);
        let size = (self.seq % 100) as u8;
        let fill = (self.seq % 256) as u8;
        let mut data: Vec<u8> = Vec::new();
        data.push(0xFF);
        data.push(0xD8);
        data.push(0xFF);
        data.push(0xE0);
        let mut i: u8 = 0;
        while i < size
            invariant
                i <= size,
                data@ == seq![0xFFu8, 0xD8u8, 0xFFu8, 0xE0u8] + Seq::new(i as nat, |k: int| fill),
            decreases size - i,
        {
            data.push(fill);
            i = i + 1;
        }
        data.push(0xFF);
        data.push(0xD9);
        assert(data@ == mock_payload(self.seq));
        Ok(data)
    }
}

/// The capture backend a sender uses by default.
pub struct CameraCapture {
    mock: MockCamera,
}

impl CameraCapture {
    /// The synthetic camera this backend captures from.
    pub closed spec fn camera(&self) -> MockCamera {
        self.mock
    }

    /// Opens the backend for device `_dev`. The device is not consulted: the
    /// backend captures from a new mock camera.
    pub fn new(_dev: &str) -> (opened: Result<CameraCapture, CaptureError>)
        ensures
            opened is Ok,
            opened->Ok_0.camera().count() == 0,
    {
        Ok(CameraCapture { mock: MockCamera::new() })
    }
}

impl FrameCapture for CameraCapture {
    fn capture(&mut self) -> (captured: Result<Vec<u8>, CaptureError>)
        ensures
            final(self).camera().count() == if old(self).camera().count() == u64::MAX {
                0
            } else {
                (old(self).camera().count() + 1) as u64
            },
            captured is Ok,
            captured->Ok_0@ == mock_payload(final(self).camera().count()),
    {
        self.mock.capture()
    }
}

/// Numbers and stamps the payloads of a capture backend.
pub struct CameraSender {
    capture: Box<dyn FrameCapture>,
    quality: u8,
    seq: u64,
}

impl CameraSender {
    /// The sequence number given out last; 0 before the first frame.
    pub closed spec fn last_seq(&self) -> u64 {
        self.seq
    }

    /// The compression quality the sender was made with.
    pub closed spec fn quality_setting(&self) -> u8 {
        self.quality
    }

    /// A sender that has produced no frame yet.
    pub fn new(capture: Box<dyn FrameCapture>, quality: u8) -> (sender: CameraSender)
        ensures
            sender.last_seq() == 0,
            sender.quality_setting() == quality,
    {
        CameraSender { capture, quality, seq: 0 }
    }

    /// Makes the next frame of a captured payload and the wall-clock reading
    /// taken for it.
    ///
    /// With a reading, the frame gets the next sequence number, one more than
    /// the last given out. Without one, no frame is made and no sequence
    /// number is used up.
    pub fn stamp(&mut self, data: Vec<u8>, now_ms: Option<u64>) -> (stamped: Result<
        VideoFrame,
        CaptureError,
    >)
        requires
            old(self).last_seq() < u64::MAX,
        ensures
            final(self).quality_setting() == old(self).quality_setting(),
            match now_ms {
                Some(timestamp) => final(self).last_seq() == old(self).last_seq() + 1
                    && stamped == Ok::<VideoFrame, CaptureError>(
                    VideoFrame {
                        seq: final(self).last_seq(),
                        data,
                        timestamp,
                        fps: Rate { bits: THIRTY_FPS_BITS },
                    },
                ),
                None => final(self).last_seq() == old(self).last_seq()
                    && stamped == Err::<VideoFrame, CaptureError>(CaptureError::ClockBeforeEpoch),
            },
    {
        match now_ms {
            Some(timestamp) => {
                self.seq = self.seq + 1;
                Ok(VideoFrame { seq: self.seq, data, timestamp, fps: Rate::from_bits(THIRTY_FPS_BITS) })
            },
            None => Err(CaptureError::ClockBeforeEpoch),
        }
    }

    /// Captures a payload and makes the next frame of it, stamped with the
    /// wall-clock time.
    ///
    /// Sequence numbers start at 1 and grow by one with each frame made. A
    /// failed capture makes no frame and uses up no sequence number.
    pub fn next_frame(&mut self) -> (next: Result<VideoFrame, CaptureError>)
        requires
            old(self).last_seq() < u64::MAX,
        ensures
            final(self).quality_setting() == old(self).quality_setting(),
            match next {
                Ok(frame) => final(self).last_seq() == old(self).last_seq() + 1 && frame.seq
                    == final(self).last_seq() && frame.fps == (Rate { bits: THIRTY_FPS_BITS }),
                Err(_) => final(self).last_seq() == old(self).last_seq(),
            },
    {
        match self.capture.capture() {
            Ok(data) => {
                let now_ms = unix_time_millis();
                self.stamp(data, now_ms)
            },
            Err(e) => Err(e),
        }
    }

    /// The sequence number given out last; 0 before the first frame.
    pub fn seq(&self) -> (seq: u64)
        ensures
            seq == self.last_seq(),
    {
        self.seq
    }

    /// The compression quality the sender was made with.
    pub fn quality(&self) -> (quality: u8)
        ensures
            quality == self.quality_setting(),
    {
        self.quality
    }
}

/// A fixed payload for senders without a camera: a minimal JPEG header and an
/// end marker.
pub fn generate_mock_frame_data() -> (data: Vec<u8>)
    ensures
        data@ == seq![
            0xFFu8, 0xD8u8, 0xFFu8, 0xE0u8, 0x00u8, 0x10u8, 0x4Au8, 0x46u8, 0x49u8, 0x46u8, 0x00u8,
            0x01u8, 0x01u8, 0x00u8, 0x00u8, 0x01u8, 0x00u8, 0x01u8, 0x00u8, 0x00u8, 0xFFu8, 0xD9u8,
        ],
{
    let data: Vec<u8> = vec![
        0xFF, 0xD8, 0xFF, 0xE0, 0x00, 0x10, 0x4A, 0x46, 0x49, 0x46, 0x00, 0x01, 0x01, 0x00, 0x00,
        0x01, 0x00, 0x01, 0x00, 0x00, 0xFF, 0xD9,
    ];
    data
}

} // verus!
