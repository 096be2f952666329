//! The camera's settings and its pacing. Opening the device, reading an image
//! from it and compressing the image are the caller's part; what is decided
//! here is the quality that is used, the interval between two captures, and
//! how long to wait before each.

use vstd::prelude::*;
use crate::config::DEFAULT_QUALITY;
use crate::config::MAX_QUALITY;
use crate::config::MIN_QUALITY;
use crate::pacer::Pacing;
use crate::pacer::NANOS_PER_SECOND;
use crate::rate::Rate;
use crate::rate::ONE_FPS_BITS;
use crate::rate::THIRTY_FPS_BITS;

verus! {

/// Why a camera cannot be used.
#[derive(Debug, Clone, Copy, PartialEq, Eq, Structural)]
pub enum CameraError {
    /// The device is not open.
    NotOpen,
    /// The target rate is zero or negative.
    NonPositiveFps,
}

/// The rate a camera is paced at: the target rate, but no less than one frame
/// per second, and one frame per second where the target is no number.
pub open spec fn paced_rate(fps: Rate) -> Rate {
    if fps.at_least(1) {
        fps
    } else {
        Rate { bits: ONE_FPS_BITS }
    }
}

/// The quality a camera uses for a quality asked for: no less than 10 and no
/// more than 95.
pub open spec fn clamped_quality(quality: u8) -> u8 {
    if quality < MIN_QUALITY {
        MIN_QUALITY
    } else if quality > MAX_QUALITY {
        MAX_QUALITY
    } else {
        quality
    }
}

/// The settings of a camera and the schedule of its captures.
#[derive(Debug)]
pub struct Camera {
    target_fps: Rate,
    quality: u8,
    pacing: Pacing,
    open: bool,
}

impl Camera {
    /// The rate asked for.
    pub closed spec fn target(&self) -> Rate {
        self.target_fps
    }

    /// The compression quality in use.
    pub closed spec fn quality_setting(&self) -> u8 {
        self.quality
    }

    /// The schedule of the captures.
    pub closed spec fn schedule(&self) -> Pacing {
        self.pacing
    }

    /// Whether the device was open when the camera was made.
    pub closed spec fn opened(&self) -> bool {
        self.open
    }

    /// The settings of a camera whose device is open or not, as `open` tells:
    /// 30 frames per second at quality 85, nothing captured yet.
    pub fn new(open: bool) -> (camera: Camera)
        ensures
            camera.opened() == open,
            camera.target() == (Rate { bits: THIRTY_FPS_BITS }),
            camera.quality_setting() == DEFAULT_QUALITY,
            camera.schedule().next_due is None,
            camera.schedule().interval == camera.target().period(NANOS_PER_SECOND as nat),
    {
        let target_fps = Rate::from_bits(THIRTY_FPS_BITS);
        Camera {
            target_fps,
            quality: DEFAULT_QUALITY,
            pacing: Pacing::new(target_fps.frame_period(NANOS_PER_SECOND)),
            open,
        }
    }

    /// Sets the target rate. The interval between two captures becomes a
    /// second divided by the rate, in whole nanoseconds, and a second where
    /// the rate is below one frame per second.
    pub fn fps(self, fps: Rate) -> (camera: Camera)
        ensures
            camera.target() == fps,
            camera.schedule().interval == paced_rate(fps).period(NANOS_PER_SECOND as nat),
            camera.schedule().next_due == self.schedule().next_due,
            camera.quality_setting() == self.quality_setting(),
            camera.opened() == self.opened(),
    {
        let paced = if fps.is_at_least(1) {
            fps
        } else {
            Rate::from_bits(ONE_FPS_BITS)
        };
        Camera {
            target_fps: fps,
            quality: self.quality,
            pacing: Pacing {
                interval: paced.frame_period(NANOS_PER_SECOND),
                next_due: self.pacing.next_due,
            },
            open: self.open,
        }
    }

    /// Sets the compression quality, brought into the range from 10 to 95.
    pub fn quality(self, quality: u8) -> (camera: Camera)
        ensures
            camera.quality_setting() == clamped_quality(quality),
            camera.target() == self.target(),
            camera.schedule() == self.schedule(),
            camera.opened() == self.opened(),
    {
        let clamped = if quality < MIN_QUALITY {
            MIN_QUALITY
        } else if quality > MAX_QUALITY {
            MAX_QUALITY
        } else {
            quality
        };
        Camera { target_fps: self.target_fps, quality: clamped, pacing: self.pacing, open: self.open }
    }

    /// Whether the device was open when the camera was made.
    pub fn is_open(&self) -> (open: bool)
        ensures
            open == self.opened(),
    {
        self.open
    }

    /// The compression quality in use.
    pub fn quality_in_use(&self) -> (quality: u8)
        ensures
            quality == self.quality_setting(),
    {
        self.quality
    }

    /// The interval between two captures, in nanoseconds.
    pub fn frame_interval(&self) -> (interval: u64)
        ensures
            interval == self.schedule().interval,
    {
        self.pacing.interval
    }

    /// Checks the settings before use: the device must be open, and the
    /// target rate must not be zero or negative. The device is looked at
    /// first.
    pub fn build(self) -> (built: Result<Camera, CameraError>)
        ensures
            !self.opened() ==> built == Err::<Camera, CameraError>(CameraError::NotOpen),
            self.opened() && self.target().at_most(0) ==> built == Err::<Camera, CameraError>(
                CameraError::NonPositiveFps,
            ),
            self.opened() && !self.target().at_most(0) ==> built == Ok::<Camera, CameraError>(
                self,
            ),
    {
        if !self.open {
            return Err(CameraError::NotOpen);
        }
        if self.target_fps.is_at_most(0) {
            return Err(CameraError::NonPositiveFps);
        }
        Ok(self)
    }

    /// Paces one capture at `now`: returns the time at which the capture
    /// starts, after the wait that the schedule asks for, and schedules the
    /// next capture an interval after that. The first capture starts at once.
    pub fn capture_frame(&mut self, now: u64) -> (wake: u64)
        requires
            now + old(self).schedule().wait_at(now) + old(self).schedule().interval <= u64::MAX,
        ensures
            wake == now + old(self).schedule().wait_at(now),
            (final(self).schedule(), wake) == old(self).schedule().run(now, 1),
            final(self).target() == old(self).target(),
            final(self).quality_setting() == old(self).quality_setting(),
            final(self).opened() == old(self).opened(),
    {
        self.pacing.pace(now)
    }

    /// How long to wait at `now`, in nanoseconds, before the next capture.
    pub fn capture_delay(&self, now: u64) -> (wait: u64)
        ensures
            wait == self.schedule().wait_at(now),
    {
        self.pacing.delay(now)
    }

    /// Records that a capture starts at `now`, after the wait: the next one
    /// is due an interval later.
    pub fn capture_started(&mut self, now: u64)
        requires
            now + old(self).schedule().interval <= u64::MAX,
        ensures
            final(self).schedule() == (Pacing {
                interval: old(self).schedule().interval,
                next_due: Some((now + old(self).schedule().interval) as u64),
            }),
            final(self).target() == old(self).target(),
            final(self).quality_setting() == old(self).quality_setting(),
            final(self).opened() == old(self).opened(),
    {
        self.pacing.started(now);
    }
}

} // verus!
