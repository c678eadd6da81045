//! The capture worker: how it comes to life, how each captured frame is
//! forwarded, and what the caller sees when it polls.
//!
//! The worker's loop runs outside the library. It captures, tells
//! [`CameraThread::forward`] what the device returned, and does what the answer
//! says; the caller polls with [`CameraThread::next_frame`] whenever it likes.
//! The two meet in the channel that the `CameraThread` holds, so calls on it
//! have to be made one at a time.
//!
//! Each call is one operation of that channel: `next_frame` is a receive,
//! `forward` a send or the closing of the producer side, `disconnect` the
//! closing of the consumer side. What [`crate::history`] proves of every run
//! of channel operations therefore holds of every sequence of calls on a
//! worker.

use crate::channel::{
    ChannelState, FrameChannel, ReceiveError, ReceiveVerdict, SendVerdict, TrySendError,
};
use vstd::prelude::*;

verus! {

/// How far the device came when it was asked to start streaming.
#[derive(Debug, Clone, Copy, PartialEq, Eq)]
pub enum DeviceStartup {
    /// The device could not be opened.
    Unavailable,
    /// The device was opened and refused the settings.
    Rejected,
    /// The device was opened, took the settings and is streaming.
    Streaming,
}

/// Why no worker was made.
#[derive(Debug, PartialEq, Eq)]
pub enum InitError {
    /// No device could be opened at the given path.
    DeviceUnavailable(String),
    /// The device cannot deliver what the configuration asks for.
    ConfigurationRejected,
}

/// Why polling yields no frame any more.
#[derive(Debug, Clone, Copy, PartialEq, Eq)]
pub enum WorkerError {
    /// The capture loop has ended and every frame it left was picked up.
    Terminated,
}

/// What the device returned for one capture.
#[derive(Debug, PartialEq, Eq)]
pub enum CaptureOutcome {
    /// A frame, as the bytes the device produced.
    Frame(Vec<u8>),
    /// The capture failed.
    Failed,
}

/// Why the capture loop ended.
#[derive(Debug, Clone, Copy, PartialEq, Eq)]
pub enum LoopError {
    /// The device failed to deliver a frame.
    CaptureFailed,
    /// A frame could not be sent: the channel was disconnected.
    SendFailed,
}

/// What the capture loop does next.
#[derive(Debug, PartialEq, Eq)]
pub enum LoopAction {
    /// The frame is on its way: capture the next one.
    CaptureNext,
    /// The previous frame was not picked up yet. Keep this frame, wait until
    /// the caller has polled, and forward it again.
    Retry(Vec<u8>),
    /// The loop is over, for the reason given.
    Stop(LoopError),
}

/// This struct is the main entry point into this library.
#[derive(Debug)]
pub struct CameraThread {
    channel: FrameChannel,
}

impl View for CameraThread {
    type V = ChannelState;

    closed spec fn view(&self) -> ChannelState {
        self.channel@
    }
}

impl CameraThread {
    /// A worker never has more than one frame waiting for the caller.
    pub proof fn lemma_within_capacity(&self)
        ensures
            self@.within_capacity(),
    {
        self.channel.lemma_within_capacity();
    }

    /// Creates the worker for the device at `camera_path`, given how the
    /// device answered when it was opened and started. A device that could not
    /// be opened or that refused its settings yields the error and no worker;
    /// for a streaming device the worker starts with an empty channel.
    pub fn new(camera_path: String, startup: DeviceStartup) -> (made: Result<
        CameraThread,
        InitError,
    >)
        ensures
            match startup {
                DeviceStartup::Unavailable => made matches Err(InitError::DeviceUnavailable(path))
                    && path@ == camera_path@,
                DeviceStartup::Rejected => made matches Err(InitError::ConfigurationRejected),
                DeviceStartup::Streaming => made matches Ok(worker) && worker@
                    == ChannelState::fresh(),
            },
    {
        match startup {
            DeviceStartup::Unavailable => Err(InitError::DeviceUnavailable(camera_path)),
            DeviceStartup::Rejected => Err(InitError::ConfigurationRejected),
            DeviceStartup::Streaming => Ok(CameraThread { channel: FrameChannel::new() }),
        }
    }

    /// Return the next frame, if available.
    ///
    /// `Ok(None)` says that no new frame is ready yet. `Terminated` says that
    /// the capture loop has ended and nothing is left to pick up.
    pub fn next_frame(&mut self) -> (polled: Result<Option<Vec<u8>>, WorkerError>)
        ensures
            final(self)@ == old(self)@.after_receive(),
            match polled {
                Ok(Some(frame)) => old(self)@.receive_verdict() == ReceiveVerdict::Frame(frame@),
                Ok(None) => old(self)@.receive_verdict() is Empty,
                Err(WorkerError::Terminated) => old(self)@.receive_verdict() is Disconnected,
            },
    {
        match self.channel.try_receive() {
            Ok(image) => Ok(image),
            Err(ReceiveError::Disconnected) => Err(WorkerError::Terminated),
        }
    }

    /// One turn of the capture loop: takes what the device returned and says
    /// what the loop does next.
    ///
    /// A failed capture closes the producer side and ends the loop. A frame is
    /// sent: it is deposited if the slot is free, and the loop captures the
    /// next one; it is handed back for another try if the slot is taken; and
    /// it ends the loop if the caller is gone or the loop had ended before.
    /// The loop ends exactly when the channel is left disconnected.
    pub fn forward(&mut self, capture: CaptureOutcome) -> (action: LoopAction)
        ensures
            match capture {
                CaptureOutcome::Failed => {
                    &&& final(self)@ == old(self)@.after_close_producer()
                    &&& action == LoopAction::Stop(LoopError::CaptureFailed)
                },
                CaptureOutcome::Frame(frame) => {
                    &&& final(self)@ == old(self)@.after_send(frame@)
                    &&& match old(self)@.send_verdict() {
                        SendVerdict::Accepted => action is CaptureNext,
                        SendVerdict::Full => action matches LoopAction::Retry(back) && back@
                            == frame@,
                        SendVerdict::Disconnected => action == LoopAction::Stop(
                            LoopError::SendFailed,
                        ),
                    }
                },
            },
            action is Stop <==> !final(self)@.connected(),
    {
        match capture {
            CaptureOutcome::Failed => {
                self.channel.close_producer();
                LoopAction::Stop(LoopError::CaptureFailed)
            },
            CaptureOutcome::Frame(frame) => match self.channel.try_send(frame) {
                Ok(()) => LoopAction::CaptureNext,
                Err(TrySendError::Full(back)) => LoopAction::Retry(back),
                Err(TrySendError::Disconnected(_)) => LoopAction::Stop(LoopError::SendFailed),
            },
        }
    }

    /// The caller lets go of the worker: the consumer side closes for good,
    /// and the next frame that is forwarded ends the capture loop.
    pub fn disconnect(&mut self)
        ensures
            final(self)@ == old(self)@.after_close_consumer(),
    {
        self.channel.close_consumer();
    }
}

} // verus!
