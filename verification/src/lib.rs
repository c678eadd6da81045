//! Frames from a video-capture device, gathered by a background worker and
//! handed to the caller one at a time through a single-slot channel.
//!
//! The crate holds the decisions of that design as sequential code with
//! contracts: the settings a device is asked for, the hand-off channel, and
//! the step that forwards each captured frame. Opening the device, waiting on
//! it and running the worker on its own thread are left to the caller, which
//! reports what the device did and carries out what the library answers.

pub mod channel;
pub mod config;
pub mod history;
pub mod worker;

pub use crate::channel::{FrameChannel, ReceiveError, TrySendError};
pub use crate::config::{Config, DeviceSettings, ImageFormat};
pub use crate::worker::{
    CameraThread, CaptureOutcome, DeviceStartup, InitError, LoopAction, LoopError, WorkerError,
};
