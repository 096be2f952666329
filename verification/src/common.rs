//! Frames, envelopes and the messages exchanged with clients.

use vstd::prelude::*;
use std::time::Instant;
use crate::rate::Rate;

verus! {

/// A compressed image with its capture metadata.
#[derive(Debug)]
pub struct VideoFrame {
    /// Sequence number, counted per sender from 1.
    pub seq: u64,
    /// Compressed image bytes.
    pub data: Vec<u8>,
    /// Capture time in milliseconds since the Unix epoch.
    pub timestamp: u64,
    /// Rate the producer believes it is running at.
    pub fps: Rate,
}

/// The mathematical content of a [`VideoFrame`].
pub struct FrameView {
    pub seq: u64,
    pub data: Seq<u8>,
    pub timestamp: u64,
    pub fps: Rate,
}

impl View for VideoFrame {
    type V = FrameView;

    open spec fn view(&self) -> FrameView {
        FrameView { seq: self.seq, data: self.data@, timestamp: self.timestamp, fps: self.fps }
    }
}

impl Clone for VideoFrame {
    fn clone(&self) -> (r: Self)
        ensures
            r@ == self@,
    {
        VideoFrame {
            seq: self.seq,
            data: self.data.clone(),
            timestamp: self.timestamp,
            fps: self.fps,
        }
    }
}

/// A frame together with the identity of the sender that produced it.
#[derive(Debug)]
pub struct FrameMessage {
    pub frame: VideoFrame,
    pub sender_id: String,
}

/// The mathematical content of a [`FrameMessage`].
pub struct EnvelopeView {
    pub frame: FrameView,
    pub sender_id: Seq<char>,
}

impl View for FrameMessage {
    type V = EnvelopeView;

    open spec fn view(&self) -> EnvelopeView {
        EnvelopeView { frame: self.frame@, sender_id: self.sender_id@ }
    }
}

impl Clone for FrameMessage {
    fn clone(&self) -> (r: Self)
        ensures
            r@ == self@,
    {
        FrameMessage { frame: self.frame.clone(), sender_id: self.sender_id.clone() }
    }
}

/// The role a client plays.
#[derive(Debug, Clone, Copy, PartialEq, Eq, Structural)]
pub enum ClientType {
    Sender,
    Viewer,
}

/// One message on a client connection.
#[derive(Debug)]
pub enum Message {
    /// A client announces itself and its role.
    Register { client_id: String, client_type: ClientType },
    /// A sender delivers a frame.
    Frame(FrameMessage),
    /// Keepalive request.
    Ping,
    /// Keepalive answer.
    Pong,
    /// A failure reported to the peer.
    Error(String),
}

/// What the registry records about one connected client.
#[derive(Debug)]
pub struct ConnectionInfo {
    pub client_id: String,
    pub client_type: ClientType,
    pub connected_at: Instant,
}

/// The mathematical content of a [`ConnectionInfo`].
pub struct ClientView {
    pub client_id: Seq<char>,
    pub client_type: ClientType,
    pub connected_at: Instant,
}

impl View for ConnectionInfo {
    type V = ClientView;

    open spec fn view(&self) -> ClientView {
        ClientView {
            client_id: self.client_id@,
            client_type: self.client_type,
            connected_at: self.connected_at,
        }
    }
}

impl Clone for ConnectionInfo {
    fn clone(&self) -> (r: Self)
        ensures
            r@ == self@,
    {
        ConnectionInfo {
            client_id: self.client_id.clone(),
            client_type: self.client_type,
            connected_at: self.connected_at,
        }
    }
}

/// A buffer that holds at most the latest frame.
pub struct FrameBuffer {
    current_frame: Option<VideoFrame>,
}

impl FrameBuffer {
    /// The frame held at the moment, if any.
    pub closed spec fn current(&self) -> Option<VideoFrame> {
        self.current_frame
    }

    /// An empty buffer.
    pub fn new() -> (buffer: FrameBuffer)
        ensures
            buffer.current() is None,
    {
        FrameBuffer { current_frame: None }
    }

    /// Puts `frame` in the buffer and hands back the frame it displaces.
    pub fn store(&mut self, frame: VideoFrame) -> (previous: Option<VideoFrame>)
        ensures
            final(self).current() == Some(frame),
            previous == old(self).current(),
    {
        let previous = self.current_frame.take();
        self.current_frame = Some(frame);
        previous
    }

    /// The held frame, left in place.
    pub fn get(&self) -> (held: Option<&VideoFrame>)
        ensures
            held is Some <==> self.current() is Some,
            held is Some ==> *held->0 == self.current()->0,
    {
        self.current_frame.as_ref()
    }

    /// Removes and returns the held frame.
    pub fn take(&mut self) -> (held: Option<VideoFrame>)
        ensures
            held == old(self).current(),
            final(self).current() is None,
    {
        self.current_frame.take()
    }
}

impl Default for FrameBuffer {
    fn default() -> (buffer: FrameBuffer)
        ensures
            buffer.current() is None,
    {
        FrameBuffer::new()
    }
}

} // verus!
