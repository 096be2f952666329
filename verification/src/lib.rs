//! Frame distribution and session core of a live image relay: a client
//! registry, a bounded fan-out bus with per-subscriber lag reporting, a
//! paced frame source and per-viewer gap detection.

pub mod clock;
pub mod rate;
pub mod text;
pub mod common;
pub mod config;
pub mod pacer;
pub mod camera;
pub mod bus;
pub mod registry;
pub mod signaling_server;
pub mod session;
pub mod sender;
pub mod source;
pub mod server;
pub mod viewer;
pub mod webcam;
pub mod websocket;
