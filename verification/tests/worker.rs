use camera_thread::{
    CameraThread, CaptureOutcome, Config, DeviceSettings, DeviceStartup, ImageFormat, InitError,
    LoopAction, LoopError, WorkerError,
};

/// A device that takes any settings but a resolution with a zero in it, hands
/// out the frames it was given, and fails from then on.
struct FakeDevice {
    frames: Vec<Vec<u8>>,
    captured: usize,
}

impl FakeDevice {
    fn with_frames(frames: Vec<Vec<u8>>) -> FakeDevice {
        FakeDevice { frames, captured: 0 }
    }

    fn start(&self, path: &str, settings: &DeviceSettings) -> DeviceStartup {
        if path.is_empty() {
            DeviceStartup::Unavailable
        } else if settings.resolution.0 == 0 || settings.resolution.1 == 0 {
            DeviceStartup::Rejected
        } else {
            DeviceStartup::Streaming
        }
    }

    fn capture(&mut self) -> CaptureOutcome {
        if self.captured < self.frames.len() {
            self.captured += 1;
            CaptureOutcome::Frame(self.frames[self.captured - 1].clone())
        } else {
            CaptureOutcome::Failed
        }
    }
}

fn rgb_config() -> Config {
    Config { resolution: (640, 480), frames_per_second: 30, image_format: ImageFormat::RGB }
}

fn streaming_worker() -> CameraThread {
    match CameraThread::new("/dev/video0".to_string(), DeviceStartup::Streaming) {
        Ok(worker) => worker,
        Err(error) => panic!("no worker: {:?}", error),
    }
}

#[test]
fn config_rejection_scenario() {
    let device = FakeDevice::with_frames(vec![vec![1, 2, 3]]);
    let config = Config { resolution: (0, 0), ..rgb_config() };
    let startup = device.start("/dev/video0", &config.device_settings());
    assert_eq!(startup, DeviceStartup::Rejected);
    let made = CameraThread::new("/dev/video0".to_string(), startup);
    assert!(matches!(made, Err(InitError::ConfigurationRejected)));
    assert_eq!(device.captured, 0);
}

#[test]
fn unavailable_device_is_reported_with_its_path() {
    let made = CameraThread::new("/dev/video7".to_string(), DeviceStartup::Unavailable);
    match made {
        Err(InitError::DeviceUnavailable(path)) => assert_eq!(path, "/dev/video7"),
        other => panic!("expected the device to be unavailable, got {:?}", other),
    }
}

#[test]
fn unavailable_device_with_an_empty_path() {
    let device = FakeDevice::with_frames(Vec::new());
    let startup = device.start("", &rgb_config().device_settings());
    match CameraThread::new(String::new(), startup) {
        Err(InitError::DeviceUnavailable(path)) => assert_eq!(path, ""),
        other => panic!("expected the device to be unavailable, got {:?}", other),
    }
}

#[test]
fn new_worker_has_nothing_to_hand_out() {
    let mut worker = streaming_worker();
    assert_eq!(worker.next_frame(), Ok(None));
    assert_eq!(worker.next_frame(), Ok(None));
}

#[test]
fn end_to_end_scenario() {
    let mut device =
        FakeDevice::with_frames(vec![vec![1, 1, 1], vec![2, 2, 2], vec![3, 3, 3]]);
    let config = rgb_config();
    let startup = device.start("/dev/video0", &config.device_settings());
    let mut worker = match CameraThread::new("/dev/video0".to_string(), startup) {
        Ok(worker) => worker,
        Err(error) => panic!("no worker: {:?}", error),
    };

    // The caller polls twice for each turn of the capture loop.
    let mut observed = Vec::new();
    let mut held: Option<Vec<u8>> = None;
    let mut stopped = false;
    for _ in 0..20 {
        if !stopped {
            let capture = match held.take() {
                Some(frame) => CaptureOutcome::Frame(frame),
                None => device.capture(),
            };
            match worker.forward(capture) {
                LoopAction::CaptureNext => {}
                LoopAction::Retry(frame) => held = Some(frame),
                LoopAction::Stop(_) => stopped = true,
            }
        }
        observed.push(worker.next_frame());
        observed.push(worker.next_frame());
    }

    let frames: Vec<Vec<u8>> = observed
        .iter()
        .filter_map(|polled| match polled {
            Ok(Some(frame)) => Some(frame.clone()),
            _ => None,
        })
        .collect();
    assert_eq!(frames, vec![vec![1, 1, 1], vec![2, 2, 2], vec![3, 3, 3]]);

    let first_error = observed.iter().position(|polled| polled.is_err());
    let first_error = match first_error {
        Some(at) => at,
        None => panic!("the worker never terminated"),
    };
    assert!(observed[..first_error].iter().all(|polled| polled.is_ok()));
    assert!(observed[first_error..]
        .iter()
        .all(|polled| *polled == Err(WorkerError::Terminated)));
    assert_eq!(
        observed[..first_error].iter().filter(|polled| **polled != Ok(None)).count(),
        3
    );
}

#[test]
fn end_to_end_with_a_slow_caller() {
    let mut device =
        FakeDevice::with_frames(vec![vec![1, 1, 1], vec![2, 2, 2], vec![3, 3, 3]]);
    let mut worker = streaming_worker();

    assert_eq!(worker.forward(device.capture()), LoopAction::CaptureNext);
    let second = device.capture();
    let held = match worker.forward(second) {
        LoopAction::Retry(frame) => frame,
        other => panic!("expected to be held back, got {:?}", other),
    };
    assert_eq!(held, vec![2, 2, 2]);
    let held = match worker.forward(CaptureOutcome::Frame(held)) {
        LoopAction::Retry(frame) => frame,
        other => panic!("expected to be held back, got {:?}", other),
    };

    assert_eq!(worker.next_frame(), Ok(Some(vec![1, 1, 1])));
    assert_eq!(worker.next_frame(), Ok(None));
    assert_eq!(worker.forward(CaptureOutcome::Frame(held)), LoopAction::CaptureNext);
    assert_eq!(worker.next_frame(), Ok(Some(vec![2, 2, 2])));
    assert_eq!(worker.forward(device.capture()), LoopAction::CaptureNext);
    assert_eq!(
        worker.forward(device.capture()),
        LoopAction::Stop(LoopError::CaptureFailed)
    );
    assert_eq!(worker.next_frame(), Ok(Some(vec![3, 3, 3])));
    for _ in 0..10 {
        assert_eq!(worker.next_frame(), Err(WorkerError::Terminated));
    }
}

#[test]
fn a_failed_capture_ends_the_loop_at_once() {
    let mut device = FakeDevice::with_frames(Vec::new());
    let mut worker = streaming_worker();
    assert_eq!(
        worker.forward(device.capture()),
        LoopAction::Stop(LoopError::CaptureFailed)
    );
    assert_eq!(worker.next_frame(), Err(WorkerError::Terminated));
}

#[test]
fn terminated_is_sticky() {
    let mut worker = streaming_worker();
    assert_eq!(
        worker.forward(CaptureOutcome::Failed),
        LoopAction::Stop(LoopError::CaptureFailed)
    );
    assert_eq!(worker.next_frame(), Err(WorkerError::Terminated));
    assert_eq!(
        worker.forward(CaptureOutcome::Frame(vec![5])),
        LoopAction::Stop(LoopError::SendFailed)
    );
    assert_eq!(worker.next_frame(), Err(WorkerError::Terminated));
    assert_eq!(
        worker.forward(CaptureOutcome::Failed),
        LoopAction::Stop(LoopError::CaptureFailed)
    );
    worker.disconnect();
    for _ in 0..10 {
        assert_eq!(worker.next_frame(), Err(WorkerError::Terminated));
    }
}

#[test]
fn the_loop_ends_when_the_caller_is_gone() {
    let mut worker = streaming_worker();
    assert_eq!(worker.forward(CaptureOutcome::Frame(vec![1])), LoopAction::CaptureNext);
    worker.disconnect();
    assert_eq!(
        worker.forward(CaptureOutcome::Frame(vec![2])),
        LoopAction::Stop(LoopError::SendFailed)
    );
    assert_eq!(
        worker.forward(CaptureOutcome::Frame(vec![3])),
        LoopAction::Stop(LoopError::SendFailed)
    );
}

#[test]
fn a_frame_that_is_held_back_comes_back_unchanged() {
    let mut worker = streaming_worker();
    let big: Vec<u8> = (0..=255u8).cycle().take(640 * 480 * 3).collect();
    assert_eq!(worker.forward(CaptureOutcome::Frame(vec![0])), LoopAction::CaptureNext);
    assert_eq!(
        worker.forward(CaptureOutcome::Frame(big.clone())),
        LoopAction::Retry(big.clone())
    );
    assert_eq!(worker.next_frame(), Ok(Some(vec![0])));
    assert_eq!(worker.forward(CaptureOutcome::Frame(big.clone())), LoopAction::CaptureNext);
    assert_eq!(worker.next_frame(), Ok(Some(big)));
}

#[test]
fn next_frame_returns_at_once_whatever_the_producer_does() {
    let limit = std::time::Duration::from_secs(5);
    let started = std::time::Instant::now();

    let mut worker = streaming_worker();
    for _ in 0..10_000 {
        assert_eq!(worker.next_frame(), Ok(None));
    }
    assert_eq!(worker.forward(CaptureOutcome::Frame(vec![1])), LoopAction::CaptureNext);
    assert_eq!(worker.next_frame(), Ok(Some(vec![1])));
    assert_eq!(
        worker.forward(CaptureOutcome::Failed),
        LoopAction::Stop(LoopError::CaptureFailed)
    );
    for _ in 0..10_000 {
        assert_eq!(worker.next_frame(), Err(WorkerError::Terminated));
    }

    assert!(started.elapsed() < limit);
}
