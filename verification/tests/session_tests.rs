use microboost::errors::CaptureError;
use microboost::session::CaptureSession;
use microboost::wav::{decode_wav, encode_wav};

#[test]
fn stop_with_no_samples_reports_empty_capture() {
    let mut session = CaptureSession::new();
    session.begin(44100, 2, 100);
    let r = session.stop();
    assert_eq!(r.unwrap_err(), CaptureError::EmptyCapture);
    assert!(!session.active);
}

#[test]
fn stop_before_begin_reports_empty_capture() {
    let mut session = CaptureSession::new();
    let r = session.stop();
    assert_eq!(r.unwrap_err(), CaptureError::EmptyCapture);
}

#[test]
fn frames_are_ignored_while_inactive() {
    let mut session = CaptureSession::new();
    session.begin(44100, 1, 100);
    session.append_frame(&vec![100]);
    let snapshot = session.stop().unwrap();
    assert_eq!(snapshot, vec![100]);
    // after the stop the flag is down: further frames change nothing
    session.append_frame(&vec![200]);
    let r = session.stop();
    assert_eq!(r.unwrap_err(), CaptureError::EmptyCapture);
}

#[test]
fn begin_clears_an_earlier_buffer() {
    let mut session = CaptureSession::new();
    session.begin(44100, 1, 100);
    session.append_frame(&vec![1]);
    session.append_frame(&vec![2]);
    session.begin(48000, 1, 100);
    session.append_frame(&vec![3]);
    let snapshot = session.stop().unwrap();
    assert_eq!(snapshot, vec![3]);
    assert_eq!(session.sample_rate, 48000);
}

#[test]
fn one_second_boosted_capture_saturates_every_sample() {
    // A two-channel 44100 Hz device feeds a constant half-scale frame for
    // one second at 200% boost: every stored sample saturates positive.
    let mut session = CaptureSession::new();
    session.begin(44100, 2, 200);
    let frame: Vec<i32> = vec![16384, 16384];
    for _ in 0..44100 {
        session.append_frame(&frame);
    }
    let snapshot = session.stop().unwrap();
    assert_eq!(snapshot.len(), 44100);
    assert!(snapshot.iter().all(|&s| s == 32767));

    let bytes = encode_wav(&snapshot, session.sample_rate);
    let decoded = decode_wav(&bytes).unwrap();
    assert_eq!(decoded.sample_rate, 44100);
    assert_eq!(decoded.samples.len(), 44100);
    assert!(decoded.samples.iter().all(|&s| s == 32767));
}
