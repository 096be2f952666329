//! The relay server's decisions: where an incoming request is routed, what is
//! answered to a plain request, and what each event on a camera or viewer
//! connection leads to. Accepting, reading and sending are left to the caller.

use vstd::prelude::*;
use vstd::string::StringExecFns;
use vstd::string::StringSliceAdditionalSpecFns;
use crate::text::char_at;
use crate::text::find_char;
use crate::text::find_space;
use crate::text::first_position;
use crate::text::lemma_first_position;
use crate::text::space_at;
use crate::text::span_is;
use crate::text::word_at;
use crate::websocket::SocketMessage;
use crate::websocket::TransportError;

verus! {

/// What an incoming request asks for.
#[derive(Debug, Clone, Copy, PartialEq, Eq, Structural)]
pub enum Route {
    /// A camera connects to deliver frames.
    Camera,
    /// A viewer connects to receive frames.
    View,
    /// The page for senders.
    SenderPage,
    /// The page for viewers.
    ViewerPage,
    /// Nothing is served under the path.
    NotFound,
    /// The request is not understood and gets no answer.
    Ignore,
}

/// Where `text` has a carriage return followed by a line feed.
pub open spec fn crlf_at(text: Seq<char>) -> spec_fn(int) -> bool {
    |i: int| text[i] == '\r' && text[i + 1] == '\n'
}

/// The position of the first line break in `text`, or `None` without one.
pub open spec fn line_end(text: Seq<char>) -> Option<int> {
    let at = first_position(0, text.len() - 1, crlf_at(text));
    if 0 <= at < text.len() - 1 {
        Some(at)
    } else {
        None
    }
}

/// Where the first word at or after `from` starts in `text`, cut at `limit`;
/// `limit` if only white space is left.
pub open spec fn word_start(text: Seq<char>, from: int, limit: int) -> int {
    first_position(from, limit, word_at(text))
}

/// Where the word that starts at `start` ends in `text`, cut at `limit`.
pub open spec fn word_end(text: Seq<char>, start: int, limit: int) -> int {
    first_position(start, limit, space_at(text))
}

/// Whether `method` reads `GET`, in upper or lower case letters.
pub open spec fn is_get(method: Seq<char>) -> bool {
    &&& method.len() == 3
    &&& (method[0] == 'G' || method[0] == 'g')
    &&& (method[1] == 'E' || method[1] == 'e')
    &&& (method[2] == 'T' || method[2] == 't')
}

/// What is served under `path`.
pub open spec fn route_of_path(path: Seq<char>) -> Route {
    if path == "/camera"@ {
        Route::Camera
    } else if path == "/view"@ {
        Route::View
    } else if path == "/"@ || path == "/sender.html"@ || path == "/static/sender.html"@ {
        Route::SenderPage
    } else if path == "/viewer.html"@ || path == "/static/viewer.html"@ {
        Route::ViewerPage
    } else {
        Route::NotFound
    }
}

/// Where a request is routed.
///
/// The request line is what precedes the first line break. Its words are
/// separated by white space: a method, a target and a version. The method
/// must be `GET`; the path is the target up to its first question mark. A
/// request without a line break, with fewer than three words on its line, or
/// with another method is ignored.
pub open spec fn route_of(text: Seq<char>) -> Route {
    match line_end(text) {
        None => Route::Ignore,
        Some(end) => {
            let method_start = word_start(text, 0, end);
            let method_end = word_end(text, method_start, end);
            let target_start = word_start(text, method_end, end);
            let target_end = word_end(text, target_start, end);
            let version_start = word_start(text, target_end, end);
            if version_start >= end {
                Route::Ignore
            } else if !is_get(text.subrange(method_start, method_end)) {
                Route::Ignore
            } else {
                let path_end = first_position(target_start, target_end, char_at(text, '?'));
                route_of_path(text.subrange(target_start, path_end))
            }
        },
    }
}

/// What a byte buffer reads as once each ill-formed UTF-8 sequence in it has
/// been replaced by U+FFFD.
pub uninterp spec fn utf8_lossy(bytes: Seq<u8>) -> Seq<char>;

/// `String::from_utf8_lossy`, its characters handed out one by one.
#[verifier::external_body]
fn decode_lossy(bytes: &[u8]) -> (text: Vec<char>)
    ensures
        text@ == utf8_lossy(bytes@),
{
    String::from_utf8_lossy(bytes).chars().collect()
}

/// The position of the first line break in `text`.
fn find_line_end(text: &[char]) -> (end: Option<usize>)
    ensures
        match end {
            Some(at) => line_end(text@) == Some(at as int),
            None => line_end(text@) is None,
        },
{
    if text.len() < 2 {
        return None;
    }
    let limit = text.len() - 1;
    let mut at: usize = 0;
    while at < limit && !(text[at] == '\r' && text[at + 1] == '\n')
        invariant
            0 <= at <= limit,
            limit == text@.len() - 1,
            forall|j: int| 0 <= j < at ==> !(#[trigger] crlf_at(text@)(j)),
        decreases limit - at,
    {
        at = at + 1;
    }
    proof {
        lemma_first_position(0, limit as int, crlf_at(text@), at as int);
    }
    if at < limit {
        Some(at)
    } else {
        None
    }
}

/// Whether the span `start..end` of `text` reads `GET`, in upper or lower
/// case letters.
fn span_is_get(text: &[char], start: usize, end: usize) -> (get: bool)
    requires
        start <= end <= text@.len(),
    ensures
        get == is_get(text@.subrange(start as int, end as int)),
{
    if end - start != 3 {
        return false;
    }
    let g = text[start];
    let e = text[start + 1];
    let t = text[start + 2];
    (g == 'G' || g == 'g') && (e == 'E' || e == 'e') && (t == 'T' || t == 't')
}

/// What is served under the path in `start..end` of `text`.
fn route_path(text: &[char], start: usize, end: usize) -> (route: Route)
    requires
        start <= end <= text@.len(),
    ensures
        route == route_of_path(text@.subrange(start as int, end as int)),
{
    if span_is(text, start, end, "/camera") {
        Route::Camera
    } else if span_is(text, start, end, "/view") {
        Route::View
    } else if span_is(text, start, end, "/") || span_is(text, start, end, "/sender.html")
        || span_is(text, start, end, "/static/sender.html") {
        Route::SenderPage
    } else if span_is(text, start, end, "/viewer.html") || span_is(
        text,
        start,
        end,
        "/static/viewer.html",
    ) {
        Route::ViewerPage
    } else {
        Route::NotFound
    }
}

/// Where the request in `text` is routed.
pub fn route_text(text: &[char]) -> (route: Route)
    ensures
        route == route_of(text@),
{
    match find_line_end(text) {
        None => Route::Ignore,
        Some(end) => {
            let method_start = find_space(text, 0, end, false);
            let method_end = find_space(text, method_start, end, true);
            let target_start = find_space(text, method_end, end, false);
            let target_end = find_space(text, target_start, end, true);
            let version_start = find_space(text, target_end, end, false);
            if version_start >= end {
                Route::Ignore
            } else if !span_is_get(text, method_start, method_end) {
                Route::Ignore
            } else {
                let path_end = find_char(text, target_start, target_end, '?');
                route_path(text, target_start, path_end)
            }
        },
    }
}

/// Where the request read into `buffer` is routed. Bytes that are not
/// well-formed UTF-8 are read as U+FFFD. An empty buffer is ignored.
pub fn route_request(buffer: &[u8]) -> (route: Route)
    ensures
        route == if buffer@.len() == 0 {
            Route::Ignore
        } else {
            route_of(utf8_lossy(buffer@))
        },
{
    if buffer.len() == 0 {
        return Route::Ignore;
    }
    let text = decode_lossy(buffer);
    route_text(text.as_slice())
}

/// The decimal digit `d` as text.
pub open spec fn digit_text(d: nat) -> Seq<char> {
    if d == 0 {
        "0"@
    } else if d == 1 {
        "1"@
    } else if d == 2 {
        "2"@
    } else if d == 3 {
        "3"@
    } else if d == 4 {
        "4"@
    } else if d == 5 {
        "5"@
    } else if d == 6 {
        "6"@
    } else if d == 7 {
        "7"@
    } else if d == 8 {
        "8"@
    } else {
        "9"@
    }
}

/// The number `n` in decimal digits, without leading zeros.
pub open spec fn decimal_text(n: nat) -> Seq<char>
    decreases n,
{
    if n < 10 {
        digit_text(n)
    } else {
        decimal_text(n / 10) + digit_text(n % 10)
    }
}

/// The answer that carries a page: status 200, the page's type, its length in
/// bytes, an empty line, and the page.
pub open spec fn page_response_text(content: &str) -> Seq<char> {
    "HTTP/1.1 200 OK\r\nContent-Type: text/html; charset=utf-8\r\nContent-Length: "@
        + decimal_text(content.spec_bytes().len()) + "\r\n\r\n"@ + content@
}

/// The decimal digit `d` as text.
fn digit(d: usize) -> (text: &'static str)
    requires
        d < 10,
    ensures
        text@ == digit_text(d as nat),
{
    if d == 0 {
        "0"
    } else if d == 1 {
        "1"
    } else if d == 2 {
        "2"
    } else if d == 3 {
        "3"
    } else if d == 4 {
        "4"
    } else if d == 5 {
        "5"
    } else if d == 6 {
        "6"
    } else if d == 7 {
        "7"
    } else if d == 8 {
        "8"
    } else {
        "9"
    }
}

/// The number `n` in decimal digits, without leading zeros.
pub fn decimal(n: usize) -> (text: String)
    ensures
        text@ == decimal_text(n as nat),
    decreases n,
{
    if n < 10 {
        String::from_str(digit(n))
    } else {
        let mut text = decimal(n / 10);
        text.append(digit(n % 10));
        text
    }
}

/// The answer that carries the page `content`.
pub fn page_response(content: &str) -> (response: String)
    ensures
        response@ == page_response_text(content),
{
    let mut response = String::from_str(
        "HTTP/1.1 200 OK\r\nContent-Type: text/html; charset=utf-8\r\nContent-Length: ",
    );
    let length = decimal(content.as_bytes().len());
    response.append(length.as_str());
    response.append("\r\n\r\n");
    response.append(content);
    assert(response@ =~= page_response_text(content));
    response
}

/// The answer to a request for a path under which nothing is served.
pub fn not_found_response() -> (response: &'static str)
    ensures
        response@ == "HTTP/1.1 404 Not Found\r\nContent-Length: 0\r\n\r\n"@,
{
    "HTTP/1.1 404 Not Found\r\nContent-Length: 0\r\n\r\n"
}

/// What happened on a camera's connection.
#[derive(Debug)]
pub enum CameraEvent {
    /// The camera sent a message.
    Received(SocketMessage),
    /// Reading from the camera failed.
    ReceiveFailed,
    /// The camera's stream ended.
    Ended,
}

/// What to do next on a camera's connection.
#[derive(Debug)]
pub enum CameraAction {
    /// Hand these bytes to every viewer.
    Broadcast(Vec<u8>),
    /// Go on reading.
    Continue,
    /// Leave the loop; the camera is gone.
    Stop,
}

/// What an event on a camera's connection leads to.
pub open spec fn camera_action(event: CameraEvent) -> CameraAction {
    match event {
        CameraEvent::Received(SocketMessage::Binary(data)) => CameraAction::Broadcast(data),
        CameraEvent::Received(SocketMessage::Close) => CameraAction::Stop,
        CameraEvent::Received(_) => CameraAction::Continue,
        CameraEvent::ReceiveFailed => CameraAction::Stop,
        CameraEvent::Ended => CameraAction::Stop,
    }
}

/// Decides what to do after `event` on a camera's connection: a binary
/// message is a frame for every viewer, a close or a failure ends the
/// connection, anything else is passed over.
pub fn handle_camera_event(event: CameraEvent) -> (action: CameraAction)
    ensures
        action == camera_action(event),
{
    match event {
        CameraEvent::Received(message) => match message {
            SocketMessage::Binary(data) => CameraAction::Broadcast(data),
            SocketMessage::Close => CameraAction::Stop,
            _ => CameraAction::Continue,
        },
        CameraEvent::ReceiveFailed => CameraAction::Stop,
        CameraEvent::Ended => CameraAction::Stop,
    }
}

/// What happened on a viewer's connection.
#[derive(Debug)]
pub enum ViewerEvent {
    /// The relay handed over a frame.
    Frame(Vec<u8>),
    /// The viewer fell behind and lost this many frames.
    Lagged(u64),
    /// The relay is closed.
    Closed,
    /// The frame handed over last was sent to the viewer.
    Sent,
    /// The frame handed over last could not be sent.
    SendFailed,
}

/// What to do next on a viewer's connection.
#[derive(Debug)]
pub enum ViewerAction {
    /// Send these bytes as one binary message.
    Send(Vec<u8>),
    /// Wait for the next frame.
    Continue,
    /// Leave the loop; the viewer is done.
    Stop,
}

/// What an event on a viewer's connection leads to.
pub open spec fn viewer_action(event: ViewerEvent) -> ViewerAction {
    match event {
        ViewerEvent::Frame(frame) => ViewerAction::Send(frame),
        ViewerEvent::Sent => ViewerAction::Continue,
        ViewerEvent::Lagged(_) => ViewerAction::Continue,
        ViewerEvent::Closed => ViewerAction::Stop,
        ViewerEvent::SendFailed => ViewerAction::Stop,
    }
}

/// Decides what to do after `event` on a viewer's connection: a frame is
/// sent on; the connection ends when the relay is closed and when a frame
/// cannot be sent. A viewer that has fallen behind has lost the frames it was
/// told of and goes on with those that follow: a lag is reported, it ends
/// nothing.
pub fn handle_viewer_event(event: ViewerEvent) -> (action: ViewerAction)
    ensures
        action == viewer_action(event),
{
    match event {
        ViewerEvent::Frame(frame) => ViewerAction::Send(frame),
        ViewerEvent::Sent => ViewerAction::Continue,
        ViewerEvent::Lagged(_) => ViewerAction::Continue,
        ViewerEvent::Closed => ViewerAction::Stop,
        ViewerEvent::SendFailed => ViewerAction::Stop,
    }
}

/// The number of bytes in a dummy frame.
pub const DUMMY_FRAME_LEN: usize = 1024;

/// A frame of 1024 zero bytes.
pub fn dummy_frame() -> (frame: Vec<u8>)
    ensures
        frame@ == Seq::new(DUMMY_FRAME_LEN as nat, |i: int| 0u8),
{
    let mut frame: Vec<u8> = Vec::new();
    let mut i: usize = 0;
    while i < DUMMY_FRAME_LEN
        invariant
            0 <= i <= DUMMY_FRAME_LEN,
            frame@ == Seq::new(i as nat, |k: int| 0u8),
        decreases DUMMY_FRAME_LEN - i,
    {
        frame.push(0);
        i = i + 1;
    }
    frame
}

/// A camera that accepts every frame and sends it nowhere.
pub struct TestCameraClient {
    frame: Vec<u8>,
}

impl TestCameraClient {
    /// The frame the client was made with.
    pub closed spec fn held(&self) -> Seq<u8> {
        self.frame@
    }

    /// Accepts `_frame` and drops it.
    pub fn send_frame(&self, _frame: &[u8]) -> (sent: Result<(), TransportError>)
        ensures
            sent is Ok,
    {
        Ok(())
    }
}

/// A viewer that receives the same frame every time.
pub struct TestViewerClient {
    frame: Vec<u8>,
}

impl TestViewerClient {
    /// The frame the client hands out.
    pub closed spec fn held(&self) -> Seq<u8> {
        self.frame@
    }

    /// A copy of the frame the client was made with.
    pub fn receive_frame(&self) -> (received: Result<Vec<u8>, TransportError>)
        ensures
            received is Ok,
            received->Ok_0@ == self.held(),
    {
        Ok(self.frame.clone())
    }
}

/// A camera client for `_url` that holds a dummy frame. Nothing is connected.
pub fn spawn_camera_client(_url: &str) -> (client: TestCameraClient)
    ensures
        client.held() == Seq::new(DUMMY_FRAME_LEN as nat, |i: int| 0u8),
{
    TestCameraClient { frame: dummy_frame() }
}

/// A viewer client for `_url` that hands out a dummy frame. Nothing is
/// connected.
pub fn spawn_viewer_client(_url: &str) -> (client: TestViewerClient)
    ensures
        client.held() == Seq::new(DUMMY_FRAME_LEN as nat, |i: int| 0u8),
{
    TestViewerClient { frame: dummy_frame() }
}

} // verus!
