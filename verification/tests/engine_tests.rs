use capture_session::camera::{Camera, ReadOutcome};
use capture_session::device_size::DeviceSize;
use capture_session::errors::CaptureError;
use capture_session::monitor::{AcquireOutcome, Monitor, ACQUIRE_WAIT_TIMEOUT};
use capture_session::output::Output;
use capture_session::session::{CaptureSession, IterationStep, PushOutcome};

fn screen_session(width: u32, height: u32) -> Monitor {
    Monitor::new(Some(DeviceSize { width, height }), String::from("DISPLAY1")).unwrap()
}

#[test]
fn monitor_needs_reported_dimensions() {
    match Monitor::new(None, String::from("DISPLAY1")) {
        Err(CaptureError::DimensionsUnavailable) => {}
        _ => panic!("construction without dimensions must be refused"),
    }
}

#[test]
fn second_start_reports_already_capturing() {
    let mut m = screen_session(1920, 1080);
    assert_eq!(m.start_cloning(), Ok(()));
    assert_eq!(m.start_cloning(), Err(CaptureError::AlreadyCapturing));
    assert!(m.is_capturing());
}

#[test]
fn stop_while_idle_reports_already_stopped() {
    let mut m = screen_session(1920, 1080);
    assert_eq!(m.stop_cloning(), Err(CaptureError::AlreadyStopped));
    assert!(!m.is_capturing());
}

#[test]
fn timeout_is_transient() {
    // Three consecutive acquisition timeouts: no frame is emitted and
    // the loop stays capturing until stop is called externally.
    let mut m = screen_session(1920, 1080);
    assert_eq!(m.start_cloning(), Ok(()));
    for _ in 0..3 {
        let step = m.on_acquire(AcquireOutcome::Failed(ACQUIRE_WAIT_TIMEOUT));
        assert!(matches!(step, IterationStep::Retry));
        assert!(m.take_frame().is_none());
        assert!(m.is_capturing());
    }
    assert_eq!(m.stop_cloning(), Ok(()));
    assert!(!m.is_capturing());
}

#[test]
fn other_acquire_failure_is_fatal() {
    let mut m = screen_session(1920, 1080);
    assert_eq!(m.start_cloning(), Ok(()));
    let step = m.on_acquire(AcquireOutcome::Failed(0x8000_0005));
    match step {
        IterationStep::Fail(e) => assert_eq!(e, CaptureError::AcquisitionFailed(0x8000_0005)),
        _ => panic!("a non-timeout failure must be fatal"),
    }
    assert!(!m.is_capturing());
    // the session resumes only on an explicit new start
    assert_eq!(m.start_cloning(), Ok(()));
}

#[test]
fn metadata_growth_over_three_frames() {
    // Required sizes 10, 50, 30 leave capacities 10, 50, 50.
    let mut m = screen_session(1920, 1080);
    assert_eq!(m.start_cloning(), Ok(()));
    let mut capacities = Vec::new();
    for required in [10u32, 50, 30] {
        let step = m.on_acquire(AcquireOutcome::Acquired { required_metadata_size: required });
        assert!(matches!(step, IterationStep::Proceed));
        capacities.push(m.metadata().capacity());
        m.release_frame();
    }
    assert_eq!(capacities, vec![10, 50, 50]);
}

#[test]
fn region_counts_beyond_capacity_are_flagged() {
    let mut m = screen_session(1920, 1080);
    assert_eq!(m.start_cloning(), Ok(()));
    let step = m.on_acquire(AcquireOutcome::Acquired { required_metadata_size: 4 });
    assert!(matches!(step, IterationStep::Proceed));
    let step = m.record_region_counts(6, 2);
    match step {
        IterationStep::Fail(e) => assert_eq!(e, CaptureError::AcquisitionFailed(6)),
        _ => panic!("a count beyond capacity must be flagged"),
    }
    assert!(!m.is_capturing());
    assert!(m.metadata().moved_count() <= m.metadata().capacity());
    assert!(m.metadata().dirty_count() <= m.metadata().capacity());
}

#[test]
fn producer_suspends_instead_of_overwriting() {
    // The channel never holds more than one frame: a second push
    // before the first is consumed comes back SlotBusy, and the
    // buffered frame is untouched.
    let mut m = screen_session(4, 2);
    assert_eq!(m.start_cloning(), Ok(()));
    assert!(matches!(m.push_frame(vec![1u8, 2]), PushOutcome::Pushed));
    match m.push_frame(vec![3u8, 4]) {
        PushOutcome::SlotBusy(f) => assert_eq!(f, vec![3u8, 4]),
        _ => panic!("a second push before a take must suspend the producer"),
    }
    assert_eq!(m.take_frame(), Some(vec![1u8, 2]));
    // with the slot drained the producer's retry goes through
    assert!(matches!(m.push_frame(vec![3u8, 4]), PushOutcome::Pushed));
    assert_eq!(m.take_frame(), Some(vec![3u8, 4]));
}

#[test]
fn send_to_gone_consumer_is_fatal() {
    let mut m = screen_session(4, 2);
    assert_eq!(m.start_cloning(), Ok(()));
    m.close_channel();
    match m.push_frame(vec![1u8]) {
        PushOutcome::Fail(e) => assert_eq!(e, CaptureError::SendFailed),
        _ => panic!("a push to a gone consumer must be fatal"),
    }
    assert!(!m.is_capturing());
}

#[test]
fn release_path_is_idempotent() {
    // A fatal-error path releases the handle; the normal teardown
    // releases it again. The second release changes nothing.
    let mut m = screen_session(1920, 1080);
    assert_eq!(m.start_cloning(), Ok(()));
    let step = m.on_acquire(AcquireOutcome::Acquired { required_metadata_size: 2 });
    assert!(matches!(step, IterationStep::Proceed));
    m.close_channel();
    assert!(matches!(m.push_frame(vec![0u8]), PushOutcome::Fail(_)));
    m.release_frame();
    m.release_frame();
    assert!(!m.is_capturing());
}

#[test]
fn screen_scenario_full_frame() {
    // A 1920x1080 screen session: the first received frame buffer is
    // exactly reported_row_stride * 1080 bytes and non-empty; stop
    // succeeds once and reports AlreadyStopped after that.
    let stride: u32 = 7680;
    let height: u32 = 1080;
    let mut m = screen_session(1920, height);
    assert_eq!(m.dimensions(), Ok(DeviceSize { width: 1920, height }));
    assert_eq!(m.start_cloning(), Ok(()));

    let step = m.on_acquire(AcquireOutcome::Acquired { required_metadata_size: 16 });
    assert!(matches!(step, IterationStep::Proceed));
    let step = m.record_region_counts(1, 2);
    assert!(matches!(step, IterationStep::Proceed));

    let mapped = vec![0xABu8; (stride as usize) * (height as usize)];
    let frame = m.extract(&mapped, stride).expect("mapped buffer spans the frame");
    assert!(matches!(m.push_frame(frame), PushOutcome::Pushed));
    m.release_frame();

    let received = m.take_frame().expect("one frame was sent");
    assert_eq!(received.len(), (stride as usize) * (height as usize));
    assert!(!received.is_empty());

    assert_eq!(m.stop_cloning(), Ok(()));
    assert_eq!(m.stop_cloning(), Err(CaptureError::AlreadyStopped));
}

#[test]
fn camera_needs_reported_dimensions() {
    match Camera::new(String::from("cam"), None, None) {
        Err(CaptureError::DimensionsUnavailable) => {}
        _ => panic!("construction without dimensions must be refused"),
    }
}

#[test]
fn camera_output_defaults_to_raw() {
    let c = Camera::new(String::from("cam"), Some(DeviceSize { width: 640, height: 480 }), None)
        .unwrap();
    assert_eq!(c.output(), Output::NV12);
    let c = Camera::new(
        String::from("cam"),
        Some(DeviceSize { width: 640, height: 480 }),
        Some(Output::RGB32),
    )
    .unwrap();
    assert_eq!(c.output(), Output::RGB32);
}

#[test]
fn camera_start_stop_guarded() {
    let mut c = Camera::new(String::from("cam"), Some(DeviceSize { width: 640, height: 480 }), None)
        .unwrap();
    assert_eq!(c.stop_capturing(), Err(CaptureError::AlreadyStopped));
    assert_eq!(c.start_capturing(), Ok(()));
    assert_eq!(c.start_capturing(), Err(CaptureError::AlreadyCapturing));
    assert!(c.is_capturing());
    assert_eq!(c.stop_capturing(), Ok(()));
    assert!(!c.is_capturing());
}

#[test]
fn camera_empty_read_is_transient() {
    let mut c = Camera::new(String::from("cam"), Some(DeviceSize { width: 640, height: 480 }), None)
        .unwrap();
    assert_eq!(c.start_capturing(), Ok(()));
    for _ in 0..3 {
        assert!(matches!(c.on_read(ReadOutcome::NoSample), IterationStep::Retry));
        assert!(c.take_frame().is_none());
        assert!(c.is_capturing());
    }
    assert!(matches!(c.on_read(ReadOutcome::Sample), IterationStep::Proceed));
    assert!(matches!(c.push_frame(vec![1u8, 2, 3]), PushOutcome::Pushed));
    assert_eq!(c.take_frame(), Some(vec![1u8, 2, 3]));
}

#[test]
fn camera_read_failure_is_fatal() {
    let mut c = Camera::new(String::from("cam"), Some(DeviceSize { width: 640, height: 480 }), None)
        .unwrap();
    assert_eq!(c.start_capturing(), Ok(()));
    match c.on_read(ReadOutcome::Failed(42)) {
        IterationStep::Fail(e) => assert_eq!(e, CaptureError::AcquisitionFailed(42)),
        _ => panic!("a failed read must be fatal"),
    }
    assert!(!c.is_capturing());
}

fn run_uniform_session<S: CaptureSession>(s: &mut S, expected: DeviceSize) {
    assert_eq!(s.dimensions().unwrap(), expected);
    assert!(s.start().is_ok());
    match s.start() {
        Err(CaptureError::AlreadyCapturing) => {}
        _ => panic!("second start must be refused"),
    }
    assert!(s.take_frame().is_none());
    assert!(s.stop().is_ok());
    match s.stop() {
        Err(CaptureError::AlreadyStopped) => {}
        _ => panic!("second stop must be refused"),
    }
}

#[test]
fn both_engines_honor_the_session_contract() {
    let size = DeviceSize { width: 1280, height: 720 };
    let mut m = Monitor::new(Some(size), String::from("DISPLAY1")).unwrap();
    run_uniform_session(&mut m, size);
    let mut c = Camera::new(String::from("cam"), Some(size), None).unwrap();
    run_uniform_session(&mut c, size);
}
