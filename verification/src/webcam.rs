//! Webcam frames: compressing a raw image to JPEG, and the test pattern that
//! stands in where no webcam is available. Reading the device is the caller's
//! part.

use vstd::prelude::*;
use image::ImageBuffer;
use image::ImageFormat;
use image::Rgb;
use std::io::Cursor;

verus! {

/// The width of the test pattern in pixels.
pub const PATTERN_WIDTH: u32 = 640;

/// The height of the test pattern in pixels.
pub const PATTERN_HEIGHT: u32 = 480;

/// The largest width and height a JPEG image can have.
pub const MAX_JPEG_SIDE: u32 = 65535;

/// Why no frame was produced.
#[derive(Debug, Clone, Copy, PartialEq, Eq, Structural)]
pub enum WebcamError {
    /// The webcam did not deliver an image.
    NoImage,
    /// The image data is shorter than its width and height require.
    BufferTooSmall,
    /// The width or the height is 0 or beyond what JPEG allows.
    InvalidSize,
    /// The encoder failed for a reason of its own.
    EncodingFailed,
}

/// An uncompressed image: rows of pixels, three bytes a pixel, red first.
#[derive(Debug)]
pub struct RawFrame {
    pub width: u32,
    pub height: u32,
    pub rgb: Vec<u8>,
}

/// The JPEG encoding of an image of the given size and pixel data.
pub uninterp spec fn jpeg_of(width: u32, height: u32, rgb: Seq<u8>) -> Seq<u8>;

/// `ImageBuffer::write_to` in the JPEG format, into a buffer in memory, on
/// the image that `ImageBuffer::from_raw` makes of three-byte pixels.
///
/// The encoding is a function of the size and the pixels alone; it is named,
/// not spelled out. The sizes that `from_raw` refuses, and those for which
/// the encoder reports an invalid size, are left out by the precondition.
/// Beyond those the encoder fails only where its writer does, and a buffer
/// in memory takes every write: the encoding succeeds.
#[verifier::external_body]
fn jpeg_encode(width: u32, height: u32, rgb: Vec<u8>) -> (encoded: Option<Vec<u8>>)
    requires
        1 <= width <= MAX_JPEG_SIDE,
        1 <= height <= MAX_JPEG_SIDE,
        3 * width * height <= rgb@.len(),
    ensures
        encoded is Some,
        encoded->0@ == jpeg_of(width, height, rgb@),
{
    let image: ImageBuffer<Rgb<u8>, Vec<u8>> = ImageBuffer::from_raw(width, height, rgb)?;
    let mut bytes = Vec::new();
    image.write_to(&mut Cursor::new(&mut bytes), ImageFormat::Jpeg).ok()?;
    Some(bytes)
}

/// Whether the pixel data of an image is long enough for its size.
pub open spec fn buffer_fits(width: u32, height: u32, len: nat) -> bool {
    3 * width * height <= len
}

/// Whether an image of this size can be a JPEG.
pub open spec fn size_is_valid(width: u32, height: u32) -> bool {
    1 <= width <= MAX_JPEG_SIDE && 1 <= height <= MAX_JPEG_SIDE
}

/// What compressing an image of this size and these pixels comes to.
pub open spec fn encoding_outcome(width: u32, height: u32, rgb: Seq<u8>) -> Result<
    Seq<u8>,
    WebcamError,
> {
    if !buffer_fits(width, height, rgb.len()) {
        Err(WebcamError::BufferTooSmall)
    } else if !size_is_valid(width, height) {
        Err(WebcamError::InvalidSize)
    } else {
        Ok(jpeg_of(width, height, rgb))
    }
}

/// Whether `jpeg` is the outcome `outcome`, its bytes taken by their view.
pub open spec fn is_outcome(jpeg: Result<Vec<u8>, WebcamError>, outcome: Result<
    Seq<u8>,
    WebcamError,
>) -> bool {
    match jpeg {
        Ok(bytes) => outcome == Ok::<Seq<u8>, WebcamError>(bytes@),
        Err(e) => outcome == Err::<Seq<u8>, WebcamError>(e),
    }
}

/// Compresses a raw image to JPEG.
///
/// Fails with `BufferTooSmall` where the pixel data is shorter than three
/// bytes for each pixel, and with `InvalidSize` where a side is 0 or longer
/// than 65535. Every other image is compressed.
pub fn encode_rgb_jpeg(frame: RawFrame) -> (jpeg: Result<Vec<u8>, WebcamError>)
    ensures
        is_outcome(jpeg, encoding_outcome(frame.width, frame.height, frame.rgb@)),
{
    assert(frame.width * frame.height <= 0xFFFF_FFFF * 0xFFFF_FFFF) by (nonlinear_arith)
        requires
            frame.width <= 0xFFFF_FFFF,
            frame.height <= 0xFFFF_FFFF,
    ;
    let pixels: u128 = (frame.width as u128) * (frame.height as u128);
    let needed: u128 = 3 * pixels;
    assert(needed == 3 * frame.width * frame.height) by (nonlinear_arith)
        requires
            needed == 3 * pixels,
            pixels == frame.width * frame.height,
    ;
    if needed > frame.rgb.len() as u128 {
        return Err(WebcamError::BufferTooSmall);
    }
    if frame.width < 1 || frame.width > MAX_JPEG_SIDE || frame.height < 1 || frame.height
        > MAX_JPEG_SIDE {
        return Err(WebcamError::InvalidSize);
    }
    match jpeg_encode(frame.width, frame.height, frame.rgb) {
        Some(bytes) => Ok(bytes),
        None => Err(WebcamError::EncodingFailed),
    }
}

/// One byte of the test pattern: red grows from left to right, green from
/// top to bottom, blue along the diagonal.
pub open spec fn pattern_byte(i: int) -> u8 {
    let x = (i / 3) % (PATTERN_WIDTH as int);
    let y = (i / 3) / (PATTERN_WIDTH as int);
    if i % 3 == 0 {
        (x * 255 / (PATTERN_WIDTH as int)) as u8
    } else if i % 3 == 1 {
        (y * 255 / (PATTERN_HEIGHT as int)) as u8
    } else {
        ((x + y) * 255 / (PATTERN_WIDTH + PATTERN_HEIGHT)) as u8
    }
}

/// The pixel data of the test pattern, 640 by 480 pixels.
pub open spec fn pattern_rgb() -> Seq<u8> {
    Seq::new((3 * PATTERN_WIDTH * PATTERN_HEIGHT) as nat, |i: int| pattern_byte(i))
}

/// The test pattern as a raw image.
pub fn test_pattern() -> (frame: RawFrame)
    ensures
        frame.width == PATTERN_WIDTH,
        frame.height == PATTERN_HEIGHT,
        frame.rgb@ == pattern_rgb(),
{
    let mut rgb: Vec<u8> = Vec::new();
    let mut y: u32 = 0;
    while y < PATTERN_HEIGHT
        invariant
            0 <= y <= PATTERN_HEIGHT,
            rgb@.len() == 1920 * y,
            forall|i: int| 0 <= i < rgb@.len() ==> rgb@[i] == pattern_byte(i),
        decreases PATTERN_HEIGHT - y,
    {
        let mut x: u32 = 0;
        while x < PATTERN_WIDTH
            invariant
                0 <= x <= PATTERN_WIDTH,
                0 <= y < PATTERN_HEIGHT,
                rgb@.len() == 1920 * y + 3 * x,
                forall|i: int| 0 <= i < rgb@.len() ==> rgb@[i] == pattern_byte(i),
            decreases PATTERN_WIDTH - x,
        {
            let ghost at = rgb@.len() as int;
            let r = (x * 255 / PATTERN_WIDTH) as u8;
            let g = (y * 255 / PATTERN_HEIGHT) as u8;
            let b = ((x + y) * 255 / (PATTERN_WIDTH + PATTERN_HEIGHT)) as u8;
            assert(at / 3 == 640 * y + x);
            assert((at / 3) % (PATTERN_WIDTH as int) == x && (at / 3) / (PATTERN_WIDTH as int)
                == y) by {
                vstd::arithmetic::div_mod::lemma_fundamental_div_mod_converse(
                    at / 3,
                    PATTERN_WIDTH as int,
                    y as int,
                    x as int,
                );
            }
            assert((at + 1) / 3 == at / 3 && (at + 2) / 3 == at / 3);
            assert(at % 3 == 0 && (at + 1) % 3 == 1 && (at + 2) % 3 == 2);
            rgb.push(r);
            rgb.push(g);
            rgb.push(b);
            x = x + 1;
        }
        y = y + 1;
    }
    assert(rgb@ =~= pattern_rgb());
    RawFrame { width: PATTERN_WIDTH, height: PATTERN_HEIGHT, rgb }
}

/// A webcam that may be missing: without one, frames show the test pattern.
#[derive(Debug)]
pub struct WebcamCapture {
    available: bool,
}

impl WebcamCapture {
    /// Whether a webcam stands behind this capture.
    pub closed spec fn has_camera(&self) -> bool {
        self.available
    }

    /// What a capture comes to, given what the webcam delivered.
    pub open spec fn frame_outcome(&self, grabbed: Option<RawFrame>) -> Result<
        Seq<u8>,
        WebcamError,
    > {
        if !self.has_camera() {
            Ok(jpeg_of(PATTERN_WIDTH, PATTERN_HEIGHT, pattern_rgb()))
        } else {
            match grabbed {
                Some(frame) => encoding_outcome(frame.width, frame.height, frame.rgb@),
                None => Err(WebcamError::NoImage),
            }
        }
    }

    /// A capture for a webcam that could be opened or not, as `opened`
    /// tells. A missing webcam is no error.
    pub fn new(opened: bool) -> (capture: Result<WebcamCapture, WebcamError>)
        ensures
            capture is Ok,
            capture->Ok_0.has_camera() == opened,
    {
        Ok(WebcamCapture { available: opened })
    }

    /// Whether a webcam stands behind this capture.
    pub fn is_available(&self) -> (available: bool)
        ensures
            available == self.has_camera(),
    {
        self.available
    }

    /// The test pattern, compressed to JPEG.
    pub fn create_test_pattern(&self) -> (jpeg: Result<Vec<u8>, WebcamError>)
        ensures
            jpeg is Ok,
            jpeg->Ok_0@ == jpeg_of(PATTERN_WIDTH, PATTERN_HEIGHT, pattern_rgb()),
    {
        encode_rgb_jpeg(test_pattern())
    }

    /// The next frame as JPEG: the image `grabbed` from the webcam where
    /// there is one, the test pattern where there is none.
    ///
    /// With a webcam that delivered no image the capture fails with
    /// `NoImage`. Without a webcam `grabbed` is not looked at, and the
    /// capture succeeds.
    pub fn capture_frame(&self, grabbed: Option<RawFrame>) -> (jpeg: Result<Vec<u8>, WebcamError>)
        ensures
            is_outcome(jpeg, self.frame_outcome(grabbed)),
    {
        if self.available {
            match grabbed {
                Some(frame) => encode_rgb_jpeg(frame),
                None => Err(WebcamError::NoImage),
            }
        } else {
            self.create_test_pattern()
        }
    }
}

} // verus!
