//! The paced frame source: a loop that, once started, captures a payload at
//! each tick, gives it the next sequence number and the time of the wall
//! clock, and publishes it on the bus under the sender's identity.
//!
//! Sleeping between ticks is the caller's part; how long, and what a tick
//! does, is decided here.

use vstd::prelude::*;
use crate::bus::FrameBus;
use crate::common::EnvelopeView;
use crate::common::FrameMessage;
use crate::common::FrameView;
use crate::common::VideoFrame;
use crate::config::rate_in_range;
use crate::config::MAX_FPS;
use crate::config::MIN_FPS;
use crate::pacer::Pacing;
use crate::pacer::NANOS_PER_SECOND;
use crate::rate::Rate;
use crate::sender::CameraSender;
use crate::sender::CaptureError;
use crate::sender::FrameCapture;

verus! {

/// Why a source was not started.
#[derive(Debug, Clone, Copy, PartialEq, Eq, Structural)]
pub enum StartError {
    /// The target rate is no number from 1 to 120 frames per second.
    RateOutOfRange,
    /// The source is running; its rate is not changed.
    AlreadyRunning,
}

/// What a tick came to.
#[derive(Debug)]
pub enum Tick {
    /// The source has not been started; nothing was captured.
    Idle,
    /// A frame with this sequence number was handed to the bus.
    Published(u64),
    /// The capture failed; this tick produced no frame.
    CaptureFailed(CaptureError),
}

/// A frame source that is idle until it is started and runs from then on.
pub struct PacedSource {
    sender_id: String,
    sender: CameraSender,
    running: Option<Rate>,
    pacing: Pacing,
}

/// `after` is `before` with one envelope more, which has the sequence number
/// `seq`, the rate `rate` and the sender `identity`.
pub open spec fn carries(
    after: Seq<EnvelopeView>,
    before: Seq<EnvelopeView>,
    seq: u64,
    rate: Rate,
    identity: Seq<char>,
) -> bool {
    &&& after.len() == before.len() + 1
    &&& after.drop_last() == before
    &&& after.last().frame.seq == seq
    &&& after.last().frame.fps == rate
    &&& after.last().sender_id == identity
}

impl PacedSource {
    /// The identity under which the source publishes.
    pub closed spec fn identity(&self) -> Seq<char> {
        self.sender_id@
    }

    /// The target rate of a running source; `None` while it is idle.
    pub closed spec fn rate(&self) -> Option<Rate> {
        self.running
    }

    /// The schedule of the ticks.
    pub closed spec fn schedule(&self) -> Pacing {
        self.pacing
    }

    /// The sequence number given out last; 0 before the first frame.
    pub closed spec fn last_seq(&self) -> u64 {
        self.sender.last_seq()
    }

    /// An idle source that will capture from `capture` and publish as
    /// `sender_id`.
    pub fn new(sender_id: String, capture: Box<dyn FrameCapture>, quality: u8) -> (source:
        PacedSource)
        ensures
            source.identity() == sender_id@,
            source.rate() is None,
            source.last_seq() == 0,
            source.schedule().next_due is None,
    {
        PacedSource {
            sender_id,
            sender: CameraSender::new(capture, quality),
            running: None,
            pacing: Pacing::new(0),
        }
    }

    /// Starts the source at `target_rate`: ticks are a second divided by the
    /// rate apart, in whole nanoseconds.
    ///
    /// A rate out of range is refused and the source stays idle. A running
    /// source is left as it is: a change of rate takes a new source.
    pub fn start(&mut self, target_rate: Rate) -> (started: Result<(), StartError>)
        ensures
            final(self).identity() == old(self).identity(),
            final(self).last_seq() == old(self).last_seq(),
            old(self).rate() is Some ==> started == Err::<(), StartError>(
                StartError::AlreadyRunning,
            ) && final(self).rate() == old(self).rate() && final(self).schedule() == old(
                self,
            ).schedule(),
            old(self).rate() is None && !rate_in_range(target_rate) ==> started == Err::<
                (),
                StartError,
            >(StartError::RateOutOfRange) && final(self).rate() is None && final(self).schedule()
                == old(self).schedule(),
            old(self).rate() is None && rate_in_range(target_rate) ==> started is Ok && final(
                self
            ).rate() == Some(target_rate) && final(self).schedule() == (Pacing {
                interval: target_rate.period(NANOS_PER_SECOND as nat) as u64,
                next_due: None,
            }),
    {
        if self.running.is_some() {
            return Err(StartError::AlreadyRunning);
        }
        if !(target_rate.is_at_least(MIN_FPS) && target_rate.is_at_most(MAX_FPS)) {
            return Err(StartError::RateOutOfRange);
        }
        self.running = Some(target_rate);
        self.pacing = Pacing::new(target_rate.frame_period(NANOS_PER_SECOND));
        Ok(())
    }

    /// Whether the source has been started.
    pub fn is_running(&self) -> (running: bool)
        ensures
            running == self.rate() is Some,
    {
        self.running.is_some()
    }

    /// The sequence number given out last; 0 before the first frame.
    pub fn seq(&self) -> (seq: u64)
        ensures
            seq == self.last_seq(),
    {
        self.sender.seq()
    }

    /// The time between two ticks, in nanoseconds.
    pub fn interval(&self) -> (interval: u64)
        ensures
            interval == self.schedule().interval,
    {
        self.pacing.interval
    }

    /// How long to sleep at `now`, in nanoseconds, before the next tick: the
    /// rest of the interval since the last tick, and nothing where the last
    /// cycle took the whole interval or more.
    pub fn delay(&self, now: u64) -> (wait: u64)
        ensures
            wait == self.schedule().wait_at(now),
    {
        self.pacing.delay(now)
    }

    /// The envelope the source makes of a frame: the frame as it was made, but
    /// for its rate, which is the rate the source runs at, under the source's
    /// identity.
    pub open spec fn envelope_of(&self, rate: Rate, frame: VideoFrame) -> EnvelopeView {
        EnvelopeView {
            frame: FrameView {
                seq: frame.seq,
                data: frame.data@,
                timestamp: frame.timestamp,
                fps: rate,
            },
            sender_id: self.identity(),
        }
    }

    /// Takes what the sender made at a tick and publishes it: a frame goes on
    /// the bus in its envelope, a failed capture is handed on and nothing is
    /// published. A closed bus takes nothing.
    pub fn publish_made(
        &self,
        rate: Rate,
        made: Result<VideoFrame, CaptureError>,
        bus: &mut FrameBus,
    ) -> (outcome: Tick)
        requires
            old(bus).wf(),
            old(bus).position() < u64::MAX,
        ensures
            final(bus).wf(),
            final(bus).limit() == old(bus).limit(),
            final(bus).shut() == old(bus).shut(),
            match made {
                Ok(frame) => outcome == Tick::Published(frame.seq) && final(bus).history() == if old(
                    bus,
                ).shut() {
                    old(bus).history()
                } else {
                    old(bus).history().push(self.envelope_of(rate, frame))
                },
                Err(e) => outcome == Tick::CaptureFailed(e) && final(bus).history() == old(
                    bus,
                ).history(),
            },
    {
        match made {
            Ok(mut frame) => {
                frame.fps = rate;
                let seq = frame.seq;
                let envelope = FrameMessage { frame, sender_id: self.sender_id.clone() };
                bus.publish(envelope);
                Tick::Published(seq)
            },
            Err(e) => Tick::CaptureFailed(e),
        }
    }

    /// One tick at `now`: captures a payload and publishes the frame made of
    /// it.
    ///
    /// An idle source does nothing. A running source schedules its next tick
    /// an interval after `now`, whatever the capture comes to. A frame gets
    /// the sequence number after the last one given out, the rate the source
    /// was started at, and the source's identity. A failed capture publishes
    /// nothing and uses up no sequence number.
    pub fn tick(&mut self, now: u64, bus: &mut FrameBus) -> (outcome: Tick)
        requires
            old(bus).wf(),
            old(bus).position() < u64::MAX,
            old(self).last_seq() < u64::MAX,
            now + old(self).schedule().interval <= u64::MAX,
        ensures
            final(bus).wf(),
            final(bus).limit() == old(bus).limit(),
            final(bus).shut() == old(bus).shut(),
            final(self).identity() == old(self).identity(),
            final(self).rate() == old(self).rate(),
            old(self).rate() is None <==> outcome is Idle,
            outcome is Idle ==> final(self).schedule() == old(self).schedule(),
            !(outcome is Idle) ==> final(self).schedule() == old(self).schedule().after(now),
            !(outcome is Published) ==> final(self).last_seq() == old(self).last_seq(),
            !(outcome is Published) ==> final(bus).history() == old(bus).history(),
            outcome matches Tick::Published(seq) ==> seq == old(self).last_seq() + 1,
            outcome matches Tick::Published(seq) ==> final(self).last_seq() == seq,
            outcome matches Tick::Published(seq) ==> old(bus).shut() || carries(
                final(bus).history(),
                old(bus).history(),
                seq,
                old(self).rate()->0,
                old(self).identity(),
            ),
            outcome is Published && old(bus).shut() ==> final(bus).history() == old(
                bus,
            ).history(),
    {
        let rate = match self.running {
            Some(rate) => rate,
            None => {
                return Tick::Idle;
            },
        };
        self.pacing.started(now);
        let made = self.sender.next_frame();
        let outcome = self.publish_made(rate, made, bus);
        proof {
            if made is Ok && !old(bus).shut() {
                let published = self.envelope_of(rate, made->Ok_0);
                assert(bus.history().drop_last() =~= old(bus).history());
                assert(bus.history().last() == published);
            }
        }
        outcome
    }
}

} // verus!
