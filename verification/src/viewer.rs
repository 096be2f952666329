//! Viewer session: hands frames to a display, counts them, and reports the
//! gap between the sequence it last saw and the one it was told to expect.

use vstd::prelude::*;
use crate::common::FrameMessage;
use crate::common::FrameView;
use crate::common::VideoFrame;

verus! {

/// Why a viewer did not take a frame.
#[derive(Debug)]
pub enum ViewerError {
    /// The display reported itself closed.
    DisplayClosed,
    /// The display could not show the frame.
    DisplayFailed(String),
}

/// Where a viewer shows its frames.
pub trait FrameDisplay: Send + Sync {
    /// Shows one frame.
    fn display(&mut self, frame: &VideoFrame) -> Result<(), ViewerError>;

    /// Whether the display still takes frames.
    fn is_open(&self) -> bool;
}

/// A display that keeps every frame it is shown.
pub struct FileFrameDisplay {
    frames: Vec<VideoFrame>,
}

impl FileFrameDisplay {
    /// The frames shown so far, oldest first.
    pub closed spec fn shown(&self) -> Seq<FrameView> {
        self.frames@.map_values(|frame: VideoFrame| frame@)
    }

    /// A display that has been shown nothing.
    pub fn new() -> (display: FileFrameDisplay)
        ensures
            display.shown() == Seq::<FrameView>::empty(),
    {
        let display = FileFrameDisplay { frames: Vec::new() };
        assert(display.shown() =~= Seq::<FrameView>::empty());
        display
    }

    /// The number of frames shown so far.
    pub fn frame_count(&self) -> (n: usize)
        ensures
            n == self.shown().len(),
    {
        self.frames.len()
    }
}

impl FrameDisplay for FileFrameDisplay {
    fn display(&mut self, frame: &VideoFrame) -> (shown: Result<(), ViewerError>)
        ensures
            shown is Ok,
            final(self).shown() == old(self).shown().push(frame@),
    {
        self.frames.push(frame.clone());
        assert(self.shown() =~= old(self).shown().push(frame@));
        Ok(())
    }

    fn is_open(&self) -> (open: bool)
        ensures
            open,
    {
        true
    }
}

/// The gap between the sequence last seen and the one expected, taken modulo
/// 2^64: `None` while either is 0 or when they agree.
pub open spec fn sequence_gap(last_seq: u64, expected_seq: u64) -> Option<u64> {
    if expected_seq > 0 && last_seq > 0 && last_seq != expected_seq {
        if last_seq > expected_seq {
            Some((last_seq - expected_seq) as u64)
        } else {
            Some((last_seq - expected_seq + 0x1_0000_0000_0000_0000) as u64)
        }
    } else {
        None
    }
}

/// The state of one viewer: its display, the number of frames it has taken
/// and the sequence number of the last one.
pub struct Viewer {
    display: Box<dyn FrameDisplay>,
    frames_received: u64,
    last_seq: u64,
}

impl Viewer {
    /// The number of frames taken so far.
    pub closed spec fn received(&self) -> u64 {
        self.frames_received
    }

    /// The sequence number of the frame taken last; 0 before the first.
    pub closed spec fn last(&self) -> u64 {
        self.last_seq
    }

    /// A viewer that has taken no frame yet.
    pub fn new(display: Box<dyn FrameDisplay>) -> (viewer: Viewer)
        ensures
            viewer.received() == 0,
            viewer.last() == 0,
    {
        Viewer { display, frames_received: 0, last_seq: 0 }
    }

    /// Counts a frame with sequence number `seq` as taken. The sequence number
    /// is recorded as it comes, also where it is lower than the one before.
    pub fn record(&mut self, seq: u64)
        requires
            old(self).received() < u64::MAX,
        ensures
            final(self).received() == old(self).received() + 1,
            final(self).last() == seq,
    {
        self.frames_received = self.frames_received + 1;
        self.last_seq = seq;
    }

    /// Takes the display's answer to whether it is open: a frame is let in to
    /// an open display and refused with `DisplayClosed` by a closed one.
    pub fn let_in(open: bool) -> (entry: Result<(), ViewerError>)
        ensures
            open ==> entry is Ok,
            !open ==> entry == Err::<(), ViewerError>(ViewerError::DisplayClosed),
    {
        if open {
            Ok(())
        } else {
            Err(ViewerError::DisplayClosed)
        }
    }

    /// Takes the display's answer to a frame with sequence number `seq`: a
    /// frame that was shown is counted, and the display's error is handed on
    /// with nothing counted.
    pub fn settle(&mut self, seq: u64, shown: Result<(), ViewerError>) -> (handled: Result<
        (),
        ViewerError,
    >)
        requires
            old(self).received() < u64::MAX,
        ensures
            shown is Ok ==> handled is Ok,
            shown is Err ==> handled is Err && handled->Err_0 == shown->Err_0,
            shown is Ok ==> final(self).received() == old(self).received() + 1,
            shown is Ok ==> final(self).last() == seq,
            shown is Err ==> final(self).received() == old(self).received(),
            shown is Err ==> final(self).last() == old(self).last(),
    {
        match shown {
            Ok(()) => {
                self.record(seq);
                Ok(())
            },
            Err(e) => Err(e),
        }
    }

    /// Shows the frame of `msg` on the display and counts it.
    ///
    /// Fails with `DisplayClosed`, before the display is shown anything, when
    /// the display reports itself closed, and with the display's own error
    /// when it cannot show the frame. A frame that was not shown is not
    /// counted.
    pub fn handle_frame(&mut self, msg: FrameMessage) -> (handled: Result<(), ViewerError>)
        requires
            old(self).received() < u64::MAX,
        ensures
            handled is Ok ==> final(self).received() == old(self).received() + 1,
            handled is Ok ==> final(self).last() == msg.frame.seq,
            handled is Err ==> final(self).received() == old(self).received(),
            handled is Err ==> final(self).last() == old(self).last(),
    {
        let open = self.display.is_open();
        match Viewer::let_in(open) {
            Ok(()) => {},
            Err(closed) => {
                return Err(closed);
            },
        }
        let shown = self.display.display(&msg.frame);
        self.settle(msg.frame.seq, shown)
    }

    /// The number of frames taken so far.
    pub fn frames_received(&self) -> (n: u64)
        ensures
            n == self.received(),
    {
        self.frames_received
    }

    /// The sequence number of the frame taken last; 0 before the first.
    pub fn last_seq(&self) -> (seq: u64)
        ensures
            seq == self.last(),
    {
        self.last_seq
    }

    /// The gap between the sequence last seen and `expected_seq`: a
    /// diagnostic, nothing is asked for again.
    pub fn check_dropped_frames(&self, expected_seq: u64) -> (gap: Option<u64>)
        ensures
            gap == sequence_gap(self.last(), expected_seq),
    {
        if expected_seq > 0 && self.last_seq > 0 && self.last_seq != expected_seq {
            Some(self.last_seq.wrapping_sub(expected_seq))
        } else {
            None
        }
    }
}

} // verus!
