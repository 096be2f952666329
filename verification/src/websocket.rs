//! The streaming socket: what each event on a connection leads to, the
//! server's address, and an in-memory stand-in for a connection that keeps
//! the frames it is sent.

use vstd::prelude::*;
use std::sync::Arc;
use std::sync::Mutex;

verus! {

/// Why a transport operation failed.
#[derive(Debug, Clone, Copy, PartialEq, Eq, Structural)]
pub enum TransportError {
    /// Nothing has been sent yet.
    NoFrames,
    /// The other side is gone.
    ChannelClosed,
}

/// One message on a socket, as far as the decisions depend on it.
#[derive(Debug)]
pub enum SocketMessage {
    Text(String),
    Binary(Vec<u8>),
    Ping,
    Pong,
    Close,
}

/// What happened on a streaming connection.
#[derive(Debug)]
pub enum SocketEvent {
    /// The timer fired and a frame was captured.
    Captured(Vec<u8>),
    /// The timer fired and the capture failed.
    CaptureFailed,
    /// A frame could not be sent.
    SendFailed,
    /// The peer sent a message.
    Received(SocketMessage),
    /// Reading from the peer failed.
    ReceiveFailed,
    /// The peer's stream ended.
    Ended,
}

/// What to do next on a streaming connection.
#[derive(Debug)]
pub enum SocketAction {
    /// Send these bytes as one binary message.
    Send(Vec<u8>),
    /// Go on waiting.
    Continue,
    /// Leave the loop; the connection is done.
    Stop,
}

/// What an event on a streaming connection leads to.
pub open spec fn socket_action(event: SocketEvent) -> SocketAction {
    match event {
        SocketEvent::Captured(frame) => SocketAction::Send(frame),
        SocketEvent::CaptureFailed => SocketAction::Continue,
        SocketEvent::SendFailed => SocketAction::Stop,
        SocketEvent::Received(SocketMessage::Close) => SocketAction::Stop,
        SocketEvent::Received(_) => SocketAction::Continue,
        SocketEvent::ReceiveFailed => SocketAction::Stop,
        SocketEvent::Ended => SocketAction::Stop,
    }
}

/// Decides what to do after `event` on a streaming connection.
///
/// A captured frame is sent; a failed capture costs that frame only. The
/// connection ends when a frame cannot be sent, when the peer closes, and when
/// reading fails or ends. Any other message from the peer is passed over.
pub fn handle_socket_event(event: SocketEvent) -> (action: SocketAction)
    ensures
        action == socket_action(event),
{
    match event {
        SocketEvent::Captured(frame) => SocketAction::Send(frame),
        SocketEvent::CaptureFailed => SocketAction::Continue,
        SocketEvent::SendFailed => SocketAction::Stop,
        SocketEvent::Received(message) => match message {
            SocketMessage::Close => SocketAction::Stop,
            _ => SocketAction::Continue,
        },
        SocketEvent::ReceiveFailed => SocketAction::Stop,
        SocketEvent::Ended => SocketAction::Stop,
    }
}

/// The interval between two captures on a streaming connection, in
/// milliseconds: about 30 frames per second.
pub const STREAM_INTERVAL_MS: u64 = 33;

/// A streaming server, known by the address it listens on.
#[derive(Debug)]
pub struct WebSocketServer {
    addr: String,
}

impl WebSocketServer {
    /// The address the server listens on.
    pub closed spec fn address(&self) -> Seq<char> {
        self.addr@
    }

    /// A server for `addr`. The address is taken as it is.
    pub fn new(addr: String) -> (server: Result<WebSocketServer, TransportError>)
        ensures
            server is Ok,
            server->Ok_0.address() == addr@,
    {
        Ok(WebSocketServer { addr })
    }

    /// The address the server listens on.
    pub fn addr(&self) -> (addr: &str)
        ensures
            addr@ == self.address(),
    {
        self.addr.as_str()
    }
}

impl Clone for WebSocketServer {
    fn clone(&self) -> (server: Self)
        ensures
            server.address() == self.address(),
    {
        WebSocketServer { addr: self.addr.clone() }
    }
}

/// `std::sync::Mutex`. Its inside is not visible to the verifier.
#[verifier::external_type_specification]
#[verifier::external_body]
#[verifier::reject_recursive_types(T)]
pub struct ExMutex<T: ?Sized>(Mutex<T>);

/// `Mutex::new`: a lock around `list`.
#[verifier::external_body]
fn frames_lock(list: Vec<Vec<u8>>) -> Mutex<Vec<Vec<u8>>> {
    Mutex::new(list)
}

/// A shared list of frames with nothing in it.
fn frames_new() -> Arc<Mutex<Vec<Vec<u8>>>> {
    Arc::new(frames_lock(Vec::new()))
}

/// `Arc::clone`: another handle on the same lock, and so on the same list.
#[verifier::external_body]
fn frames_share(frames: &Arc<Mutex<Vec<Vec<u8>>>>) -> (shared: Arc<Mutex<Vec<Vec<u8>>>>)
    ensures
        shared == *frames,
{
    Arc::clone(frames)
}

/// `Mutex::lock`, then a push to the list behind it. The list is shared, so
/// nothing is claimed of it.
#[verifier::external_body]
fn frames_push(frames: &Arc<Mutex<Vec<Vec<u8>>>>, frame: Vec<u8>) {
    match frames.lock() {
        Ok(mut list) => list.push(frame),
        Err(poisoned) => poisoned.into_inner().push(frame),
    }
}

/// `Mutex::lock`, then a copy of the list behind it. The list is shared, so
/// nothing is claimed of the copy.
#[verifier::external_body]
fn frames_snapshot(frames: &Arc<Mutex<Vec<Vec<u8>>>>) -> Vec<Vec<u8>> {
    match frames.lock() {
        Ok(list) => list.clone(),
        Err(poisoned) => poisoned.into_inner().clone(),
    }
}

/// The sending end of an in-memory connection: it keeps every frame it is
/// sent, for the receiving end to read.
pub struct TestWebSocketServer {
    frames: Arc<Mutex<Vec<Vec<u8>>>>,
}

/// The receiving end of an in-memory connection.
pub struct TestWebSocketClientConn {
    frames: Arc<Mutex<Vec<Vec<u8>>>>,
}

/// The oldest of `frames`, or `NoFrames` when there is none.
pub fn first_frame(frames: &Vec<Vec<u8>>) -> (first: Result<Vec<u8>, TransportError>)
    ensures
        frames@.len() == 0 ==> first == Err::<Vec<u8>, TransportError>(TransportError::NoFrames),
        frames@.len() > 0 ==> first is Ok && first->Ok_0@ == frames@[0]@,
{
    if frames.len() == 0 {
        Err(TransportError::NoFrames)
    } else {
        Ok(frames[0].clone())
    }
}

impl TestWebSocketServer {
    /// The lock this end keeps its frames behind.
    pub closed spec fn channel(&self) -> Arc<Mutex<Vec<Vec<u8>>>> {
        self.frames
    }

    /// A sending end with no receiving end attached.
    pub fn new() -> TestWebSocketServer {
        TestWebSocketServer { frames: frames_new() }
    }

    /// Keeps a copy of `frame` as the newest frame sent.
    pub fn send_frame(&self, frame: &[u8]) -> (sent: Result<(), TransportError>)
        ensures
            sent is Ok,
    {
        frames_push(&self.frames, vstd::slice::slice_to_vec(frame));
        Ok(())
    }

    /// A copy of the frames sent so far, oldest first.
    pub fn get_frames(&self) -> Vec<Vec<u8>> {
        frames_snapshot(&self.frames)
    }
}

impl TestWebSocketClientConn {
    /// The lock this end reads its frames from behind.
    pub closed spec fn channel(&self) -> Arc<Mutex<Vec<Vec<u8>>>> {
        self.frames
    }

    /// The oldest frame the sending end was sent, or `NoFrames` when it has
    /// been sent none. The frame stays in place: the next call returns it
    /// again.
    ///
    /// What the sending end was sent lies behind the lock, so which of the
    /// two comes back is not stated; no other error does.
    pub fn receive_binary(&self) -> (received: Result<Vec<u8>, TransportError>)
        ensures
            received is Err ==> received == Err::<Vec<u8>, TransportError>(
                TransportError::NoFrames,
            ),
    {
        let frames = frames_snapshot(&self.frames);
        first_frame(&frames)
    }
}

/// The two ends of an in-memory connection: both stand on the same lock, so
/// that the receiving end reads what the sending end is sent.
pub fn spawn_test_websocket() -> (ends: (TestWebSocketServer, TestWebSocketClientConn))
    ensures
        ends.0.channel() == ends.1.channel(),
{
    let frames = frames_new();
    let server = TestWebSocketServer { frames: frames_share(&frames) };
    let client = TestWebSocketClientConn { frames };
    (server, client)
}

} // verus!
