use barcode_scan::device::{acquisition_constraints, torch_update};
use barcode_scan::session::{
    Action, DecodeOutcome, ErrorKind, Phase, Scanner, ScannerMessage, ScannerProps,
};

type Msg = ScannerMessage<u8, String>;
type Act = Action<u8, u8, String>;

fn streaming_scanner() -> Scanner<u8, u8> {
    let mut s: Scanner<u8, u8> = Scanner::create(&ScannerProps::default());
    s.update::<String>(Msg::ToggleScanner);
    s.update::<String>(Msg::ReceivedStream(7));
    s
}

#[test]
fn default_sample_interval_is_500ms() {
    assert_eq!(ScannerProps::default().refresh_milliseconds, 500);
}

#[test]
fn create_starts_idle_and_empty() {
    let s: Scanner<u8, u8> = Scanner::create(&ScannerProps { refresh_milliseconds: 250 });
    assert_eq!(s.phase, Phase::Idle);
    assert_eq!(s.stream, None);
    assert_eq!(s.interval, None);
    assert!(!s.is_flashlight_on);
    assert_eq!(s.refresh_milliseconds, 250);
}

#[test]
fn start_twice_requests_one_acquisition() {
    let mut s: Scanner<u8, u8> = Scanner::create(&ScannerProps::default());
    let first = s.update::<String>(Msg::ToggleScanner);
    assert_eq!(first, vec![Act::RequestStream(acquisition_constraints())]);
    assert_eq!(s.phase, Phase::Acquiring);
    let second = s.update::<String>(Msg::ToggleScanner);
    assert_eq!(second, vec![]);
    assert_eq!(s.phase, Phase::Acquiring);
}

#[test]
fn received_stream_is_stored_and_bound() {
    let mut s: Scanner<u8, u8> = Scanner::create(&ScannerProps::default());
    s.update::<String>(Msg::ToggleScanner);
    let acts = s.update::<String>(Msg::ReceivedStream(7));
    assert_eq!(acts, vec![Act::BindStream]);
    assert_eq!(s.phase, Phase::Streaming);
    assert_eq!(s.stream, Some(7));
}

#[test]
fn frame_available_arms_timer_once() {
    let mut s = streaming_scanner();
    let acts = s.update::<String>(Msg::VideoTimeUpdate);
    assert_eq!(acts, vec![Act::ArmTimer(500)]);
    assert_eq!(s.store_interval(4), None);
    assert_eq!(s.interval, Some(4));
    // repeated frame notifications after the timer exists are no-ops
    assert_eq!(s.update::<String>(Msg::VideoTimeUpdate), vec![]);
}

#[test]
fn stray_timer_handle_is_rejected_for_cancellation() {
    let mut s = streaming_scanner();
    assert_eq!(s.store_interval(4), None);
    assert_eq!(s.store_interval(9), Some(9));
    assert_eq!(s.interval, Some(4));
    let mut idle: Scanner<u8, u8> = Scanner::create(&ScannerProps::default());
    assert_eq!(idle.store_interval(3), Some(3));
    assert_eq!(idle.interval, None);
}

#[test]
fn tick_captures_only_while_streaming() {
    let mut s = streaming_scanner();
    assert_eq!(s.update::<String>(Msg::CapturedImage), vec![Act::Capture]);
    let mut idle: Scanner<u8, u8> = Scanner::create(&ScannerProps::default());
    assert_eq!(idle.update::<String>(Msg::CapturedImage), vec![]);
}

#[test]
fn decode_success_emits_scan_then_close_and_ignores_late_tick() {
    let mut s = streaming_scanner();
    s.update::<String>(Msg::VideoTimeUpdate);
    s.store_interval(4);
    s.update::<String>(Msg::CapturedImage);
    let acts = s.update::<String>(Msg::DecodeCompleted(DecodeOutcome::Found("code".to_string())));
    assert_eq!(
        acts,
        vec![
            Act::EmitScanned("code".to_string()),
            Act::StopStream(7),
            Act::CancelTimer(4),
            Act::EmitClosed,
        ]
    );
    assert_eq!(s.phase, Phase::Closed);
    assert_eq!(s.stream, None);
    assert_eq!(s.interval, None);
    // a tick that was already scheduled is processed no further
    assert_eq!(s.update::<String>(Msg::CapturedImage), vec![]);
    // and a stale decode answer resurrects nothing
    assert_eq!(
        s.update::<String>(Msg::DecodeCompleted(DecodeOutcome::Found("late".to_string()))),
        vec![]
    );
    assert_eq!(s.phase, Phase::Closed);
}

#[test]
fn not_found_is_silent_and_keeps_streaming() {
    let mut s = streaming_scanner();
    let acts = s.update::<String>(Msg::DecodeCompleted(DecodeOutcome::NotFound));
    assert_eq!(acts, vec![]);
    assert_eq!(s.phase, Phase::Streaming);
    assert_eq!(s.stream, Some(7));
}

#[test]
fn malformed_and_engine_errors_are_reported_and_recoverable() {
    let mut s = streaming_scanner();
    let acts = s.update::<String>(Msg::DecodeCompleted(DecodeOutcome::Malformed("bad".into())));
    assert_eq!(acts, vec![Act::EmitError(ErrorKind::DecodeMalformed, "bad".into())]);
    assert_eq!(s.phase, Phase::Streaming);
    let acts = s.update::<String>(Msg::DecodeCompleted(DecodeOutcome::EngineError("boom".into())));
    assert_eq!(acts, vec![Act::EmitError(ErrorKind::DecodeEngineError, "boom".into())]);
    assert_eq!(s.phase, Phase::Streaming);
}

#[test]
fn acquisition_failure_reports_then_closes() {
    let mut s: Scanner<u8, u8> = Scanner::create(&ScannerProps::default());
    s.update::<String>(Msg::ToggleScanner);
    let acts = s.update::<String>(Msg::Error(ErrorKind::AcquisitionFailed, "denied".into()));
    assert_eq!(
        acts,
        vec![Act::EmitError(ErrorKind::AcquisitionFailed, "denied".into()), Act::EmitClosed]
    );
    assert_eq!(s.phase, Phase::Closed);
}

#[test]
fn close_clears_everything_and_is_idempotent() {
    let mut s = streaming_scanner();
    s.update::<String>(Msg::VideoTimeUpdate);
    s.store_interval(4);
    s.update::<String>(Msg::ToggleFlashlight);
    s.update::<String>(Msg::TorchApplied(true));
    assert!(s.is_flashlight_on);
    let acts = s.update::<String>(Msg::CloseScanner);
    assert_eq!(acts, vec![Act::StopStream(7), Act::CancelTimer(4), Act::EmitClosed]);
    assert_eq!(s.phase, Phase::Closed);
    assert_eq!(s.stream, None);
    assert_eq!(s.interval, None);
    assert!(!s.is_flashlight_on);
    // a second close produces no further emission
    assert_eq!(s.update::<String>(Msg::CloseScanner), vec![]);
}

#[test]
fn close_while_acquiring_emits_only_closed() {
    let mut s: Scanner<u8, u8> = Scanner::create(&ScannerProps::default());
    s.update::<String>(Msg::ToggleScanner);
    let acts = s.update::<String>(Msg::CloseScanner);
    assert_eq!(acts, vec![Act::EmitClosed]);
    assert_eq!(s.phase, Phase::Closed);
}

#[test]
fn close_when_idle_is_a_no_op() {
    let mut s: Scanner<u8, u8> = Scanner::create(&ScannerProps::default());
    assert_eq!(s.update::<String>(Msg::CloseScanner), vec![]);
    assert_eq!(s.phase, Phase::Idle);
}

#[test]
fn stream_arriving_after_close_is_released_not_stored() {
    let mut s: Scanner<u8, u8> = Scanner::create(&ScannerProps::default());
    s.update::<String>(Msg::ToggleScanner);
    s.update::<String>(Msg::CloseScanner);
    let acts = s.update::<String>(Msg::ReceivedStream(9));
    assert_eq!(acts, vec![Act::StopStream(9)]);
    assert_eq!(s.phase, Phase::Closed);
    assert_eq!(s.stream, None);
}

#[test]
fn session_can_be_restarted_after_close() {
    let mut s = streaming_scanner();
    s.update::<String>(Msg::CloseScanner);
    let acts = s.update::<String>(Msg::ToggleScanner);
    assert_eq!(acts, vec![Act::RequestStream(acquisition_constraints())]);
    assert_eq!(s.phase, Phase::Acquiring);
}

#[test]
fn torch_toggle_requests_update_and_flips_only_on_success() {
    let mut s = streaming_scanner();
    let acts = s.update::<String>(Msg::ToggleFlashlight);
    assert_eq!(acts, vec![Act::ApplyTorch(torch_update(true))]);
    assert!(!s.is_flashlight_on, "the advisory flag waits for the applied update");
    s.update::<String>(Msg::TorchApplied(true));
    assert!(s.is_flashlight_on);
    // the next toggle asks for the negation
    let acts = s.update::<String>(Msg::ToggleFlashlight);
    assert_eq!(acts, vec![Act::ApplyTorch(torch_update(false))]);
}

#[test]
fn torch_failure_is_reported_and_changes_nothing() {
    let mut s = streaming_scanner();
    s.update::<String>(Msg::ToggleFlashlight);
    let acts = s.update::<String>(Msg::Error(ErrorKind::DeviceControlFailed, "no torch".into()));
    assert_eq!(acts, vec![Act::EmitError(ErrorKind::DeviceControlFailed, "no torch".into())]);
    assert_eq!(s.phase, Phase::Streaming);
    assert!(!s.is_flashlight_on);
}

#[test]
fn torch_toggle_outside_streaming_is_ignored() {
    let mut s: Scanner<u8, u8> = Scanner::create(&ScannerProps::default());
    assert_eq!(s.update::<String>(Msg::ToggleFlashlight), vec![]);
    s.update::<String>(Msg::ToggleScanner);
    assert_eq!(s.update::<String>(Msg::ToggleFlashlight), vec![]);
}

#[test]
fn constraint_updates_keep_the_acquisition_baseline() {
    let base = acquisition_constraints();
    assert!(!base.torch);
    assert!(base.rear_facing);
    assert_eq!(base.frame_rate, 10);
    let on = torch_update(true);
    assert!(on.torch);
    assert!(on.rear_facing);
    assert_eq!(on.frame_rate, base.frame_rate);
}
