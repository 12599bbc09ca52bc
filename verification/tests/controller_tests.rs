use microboost::controller::{
    DeviceChoice, PlayOutcome, RecordingState, SessionController, StartOutcome, Status,
    StopOutcome, ToggleAction,
};
use microboost::errors::{CaptureError, PlayError};

#[test]
fn boost_setter_clamps_below_zero() {
    let mut c = SessionController::new();
    c.set_boost_percent(-5);
    assert_eq!(c.boost_percent, 0);
}

#[test]
fn boost_setter_clamps_above_thousand() {
    let mut c = SessionController::new();
    c.set_boost_percent(5000);
    assert_eq!(c.boost_percent, 1000);
}

#[test]
fn boost_setter_keeps_in_range_values() {
    let mut c = SessionController::new();
    c.set_boost_percent(200);
    assert_eq!(c.boost_percent, 200);
    c.set_boost_percent(0);
    assert_eq!(c.boost_percent, 0);
    c.set_boost_percent(1000);
    assert_eq!(c.boost_percent, 1000);
}

#[test]
fn out_of_range_device_position_falls_back_to_default() {
    let mut c = SessionController::new();
    c.select_device(7);
    assert_eq!(c.device_choice(3), DeviceChoice::HostDefault);
    assert_eq!(c.device_choice(0), DeviceChoice::HostDefault);
    assert_eq!(c.device_choice(8), DeviceChoice::Position(7));
}

#[test]
fn toggle_starts_when_idle_and_stops_when_recording() {
    let mut c = SessionController::new();
    assert_eq!(c.toggle_action(), ToggleAction::StartCapture);
    c.on_start(StartOutcome::Started { sample_rate: 48000, started_at: 10 });
    assert_eq!(c.toggle_action(), ToggleAction::StopCapture);
    assert_eq!(c.status, Status::Recording);
    assert_eq!(c.sample_rate, 48000);
    assert_eq!(c.state, RecordingState::Recording { started_at: 10 });
}

#[test]
fn failed_start_leaves_session_idle() {
    let mut c = SessionController::new();
    c.on_start(StartOutcome::Failed { error: CaptureError::NoDevice });
    assert_eq!(c.state, RecordingState::Idle);
    assert_eq!(c.status, Status::CaptureFailed { error: CaptureError::NoDevice });
    c.on_start(StartOutcome::Failed { error: CaptureError::StreamFailure });
    assert_eq!(c.status, Status::CaptureFailed { error: CaptureError::StreamFailure });
    c.on_start(StartOutcome::Failed { error: CaptureError::UnsupportedConfig });
    assert_eq!(c.status, Status::CaptureFailed { error: CaptureError::UnsupportedConfig });
}

#[test]
fn elapsed_seconds_counts_from_start() {
    let mut c = SessionController::new();
    assert_eq!(c.elapsed_seconds(99), 0);
    c.on_start(StartOutcome::Started { sample_rate: 44100, started_at: 100 });
    assert_eq!(c.elapsed_seconds(100), 0);
    assert_eq!(c.elapsed_seconds(161), 61);
    // a clock that reads earlier than the start yields zero, not a panic
    assert_eq!(c.elapsed_seconds(99), 0);
}

#[test]
fn saved_stop_records_path_and_duration() {
    let mut c = SessionController::new();
    c.on_start(StartOutcome::Started { sample_rate: 44100, started_at: 50 });
    c.on_stop(StopOutcome::Saved { path: b"test_20240101_120000.wav".to_vec() }, 53);
    assert_eq!(c.state, RecordingState::Idle);
    assert_eq!(c.status, Status::Saved { seconds: 3 });
    assert_eq!(c.last_recording, Some(b"test_20240101_120000.wav".to_vec()));
}

#[test]
fn empty_stop_keeps_last_recording() {
    let mut c = SessionController::new();
    c.on_start(StartOutcome::Started { sample_rate: 44100, started_at: 1 });
    c.on_stop(StopOutcome::NoSamples, 2);
    assert_eq!(c.state, RecordingState::Idle);
    assert_eq!(c.status, Status::NoAudio);
    assert_eq!(c.last_recording, None);
}

#[test]
fn failed_write_reports_and_keeps_last_recording() {
    let mut c = SessionController::new();
    c.on_start(StartOutcome::Started { sample_rate: 44100, started_at: 1 });
    c.on_stop(StopOutcome::Saved { path: b"first.wav".to_vec() }, 2);
    c.on_start(StartOutcome::Started { sample_rate: 44100, started_at: 3 });
    c.on_stop(StopOutcome::WriteFailed, 4);
    assert_eq!(c.status, Status::SaveFailed);
    assert_eq!(c.last_recording, Some(b"first.wav".to_vec()));
}

#[test]
fn play_before_any_capture_reports_no_recording() {
    let mut c = SessionController::new();
    let has = c.play_last_request();
    assert!(!has);
    assert_eq!(c.status, Status::NoRecording);
    assert_eq!(c.last_recording, None);
}

#[test]
fn play_after_a_save_runs_and_reports() {
    let mut c = SessionController::new();
    c.on_start(StartOutcome::Started { sample_rate: 44100, started_at: 1 });
    c.on_stop(StopOutcome::Saved { path: b"take.wav".to_vec() }, 2);
    let has = c.play_last_request();
    assert!(has);
    assert_eq!(c.status, Status::Playing);
    c.on_play(PlayOutcome::Finished);
    assert_eq!(c.status, Status::Ready);
    let has_again = c.play_last_request();
    assert!(has_again);
    c.on_play(PlayOutcome::Failed { error: PlayError::NoOutputDevice });
    assert_eq!(c.status, Status::PlaybackFailed { error: PlayError::NoOutputDevice });
    c.on_play(PlayOutcome::Failed { error: PlayError::OpenFailure });
    assert_eq!(c.status, Status::PlaybackFailed { error: PlayError::OpenFailure });
    c.on_play(PlayOutcome::Failed { error: PlayError::DecodeFailure });
    assert_eq!(c.status, Status::PlaybackFailed { error: PlayError::DecodeFailure });
}
