use replay_capture::export::{export_result, timed_stream, ExportResult};
use replay_capture::recorder::{CaptureFrameError, Control, Phase, Recorder, StartupError};

fn started(seconds: u32, fps: u32) -> Recorder {
    let mut r = Recorder::new(seconds, fps).unwrap();
    r.start();
    r
}

#[test]
fn new_recorder_sizes_buffer() {
    let r = Recorder::new(15, 30).unwrap();
    assert_eq!(r.capacity(), 450);
    assert_eq!(r.len(), 0);
    assert_eq!(r.phase(), Phase::Idle);
    assert!(!r.is_exporting());
    assert_eq!(r.frame_interval_ns(), 33_333_333);
}

#[test]
fn zero_fps_is_refused() {
    assert_eq!(Recorder::new(15, 0).err(), Some(StartupError::ZeroFrameRate));
}

#[test]
fn zero_seconds_is_refused() {
    assert_eq!(Recorder::new(0, 30).err(), Some(StartupError::EmptyBuffer));
}

#[test]
fn oversized_buffer_is_refused() {
    assert_eq!(Recorder::new(u32::MAX, 2).err(), Some(StartupError::BufferTooLarge));
}

#[test]
fn start_moves_to_capturing() {
    let r = started(1, 5);
    assert_eq!(r.phase(), Phase::Capturing);
}

#[test]
fn capture_error_leaves_buffer_length() {
    let mut r = started(1, 3);
    r.record(Ok(vec![1]));
    r.record(Ok(vec![2]));
    let before = r.len();
    r.record(Err(CaptureFrameError));
    assert_eq!(r.len(), before);
    r.record(Ok(vec![3]));
    r.record(Err(CaptureFrameError));
    assert_eq!(r.len(), 3);
}

#[test]
fn overlapping_requests_are_coalesced() {
    let mut r = started(1, 4);
    r.record(Ok(vec![1]));
    assert!(matches!(r.poll(false, true), Control::Export(_)));
    assert!(r.is_exporting());
    for _ in 0..5 {
        assert!(matches!(r.poll(false, true), Control::Capture));
    }
    r.export_finished();
    assert!(!r.is_exporting());
    assert!(matches!(r.poll(false, true), Control::Export(_)));
}

#[test]
fn poll_without_request_captures() {
    let mut r = started(1, 4);
    assert!(matches!(r.poll(false, false), Control::Capture));
    assert!(!r.is_exporting());
}

#[test]
fn stop_exits_at_once_and_for_good() {
    let mut r = started(1, 4);
    assert!(matches!(r.poll(true, true), Control::Exit));
    assert_eq!(r.phase(), Phase::Stopped);
    assert!(!r.is_exporting());
    assert!(matches!(r.poll(false, true), Control::Exit));
}

#[test]
fn sleep_is_rest_of_interval() {
    let r = started(1, 10);
    assert_eq!(r.sleep_after(30_000_000), 70_000_000);
    assert_eq!(r.sleep_after(0), 100_000_000);
    assert_eq!(r.sleep_after(100_000_000), 0);
    assert_eq!(r.sleep_after(250_000_000), 0);
}

#[test]
fn full_buffer_export_at_thirty_fps() {
    let mut r = started(15, 30);
    for i in 0..500u32 {
        r.record(Ok(i.to_le_bytes().to_vec()));
    }
    assert_eq!(r.len(), 450);
    let snap = match r.poll(false, true) {
        Control::Export(s) => s,
        _ => panic!("expected an export"),
    };
    let stream = timed_stream(snap, r.frame_interval_ns());
    assert_eq!(stream.len(), 450);
    for (n, f) in stream.iter().enumerate() {
        assert_eq!(f.pts_ns, n as u64 * 33_333_333);
        assert_eq!(f.data, (50 + n as u32).to_le_bytes().to_vec());
    }
    assert_eq!(stream[0].pts_ns, 0);
    assert_eq!(stream[449].pts_ns, 14_966_666_517);
    let out = export_result("replay.mp4".to_string(), Ok(()));
    assert!(matches!(out, ExportResult::OutputWritten(ref t) if t == "replay.mp4"));
}
