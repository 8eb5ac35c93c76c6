use scanner_signature_app::camera::{
    handle_scan_button, maybe_flag_permission_denied, on_android_resumed, permission_verdict,
    permission_watchdog_finished, permission_watchdog_tick, poll_permission_granted, start_permission_watchdog,
    take_permission_settings_popup_request, CameraRuntime, CameraStart, PermissionProbe, PermissionStep,
    PermissionVerdict, ScanButtonStep, store_qr_result,
};
use scanner_signature_app::{AppState, Screen};

type State = AppState<(f64, f64), (f64, f64)>;

fn on_info() -> (State, CameraRuntime) {
    let mut rt = CameraRuntime::new();
    let mut s: State = AppState::new(&mut rt, (0.0, 0.0));
    s.set_screen(Screen::Info, &mut rt);
    (s, rt)
}

fn probe(granted: bool, rationale: Option<bool>, focus_back: bool, now_ms: u64) -> PermissionProbe {
    PermissionProbe { granted, rationale, focus_back, now_ms }
}

fn pending_since(t: u64) -> CameraRuntime {
    let mut rt = CameraRuntime::new();
    rt.permission_pending = true;
    rt.permission_requested_at_ms = t;
    rt
}

#[test]
fn denial_with_rationale_after_350ms() {
    let mut rt = pending_since(1000);
    assert!(!maybe_flag_permission_denied(&mut rt, probe(false, Some(true), false, 1349)));
    assert!(rt.permission_pending);
    assert!(maybe_flag_permission_denied(&mut rt, probe(false, Some(true), false, 1350)));
    assert!(!rt.permission_pending && rt.show_permission_settings_popup);
    assert!(!maybe_flag_permission_denied(&mut rt, probe(false, Some(true), false, 9000)));
}

#[test]
fn denial_waits_for_focus_or_timeout() {
    let mut rt = pending_since(1000);
    assert!(!maybe_flag_permission_denied(&mut rt, probe(false, Some(false), true, 2199)));
    assert!(maybe_flag_permission_denied(&mut rt, probe(false, Some(false), true, 2200)));
    let mut rt = pending_since(1000);
    assert!(!maybe_flag_permission_denied(&mut rt, probe(false, None, false, 4999)));
    assert!(maybe_flag_permission_denied(&mut rt, probe(false, None, false, 5000)));
}

#[test]
fn no_denial_when_granted_or_not_requested() {
    let mut rt = pending_since(1000);
    assert!(!maybe_flag_permission_denied(&mut rt, probe(true, Some(true), true, 99_000)));
    let mut rt = pending_since(0);
    assert!(!maybe_flag_permission_denied(&mut rt, probe(false, Some(true), true, 99_000)));
    let mut rt = CameraRuntime::new();
    assert!(!maybe_flag_permission_denied(&mut rt, probe(false, Some(true), true, 99_000)));
}

#[test]
fn clock_before_request_counts_as_no_time() {
    let mut rt = pending_since(10_000);
    assert!(!maybe_flag_permission_denied(&mut rt, probe(false, Some(true), true, 5)));
}

#[test]
fn popup_request_is_taken_once() {
    let mut rt = CameraRuntime::new();
    rt.show_permission_settings_popup = true;
    assert!(take_permission_settings_popup_request(&mut rt));
    assert!(!take_permission_settings_popup_request(&mut rt));
}

#[test]
fn scan_button_with_permission_starts_scan() {
    let (mut s, mut rt) = on_info();
    let step = handle_scan_button(&mut s, &mut rt, true, 10);
    assert_eq!(step, ScanButtonStep::ScanStarted(CameraStart::Spawn));
    assert_eq!(s.screen, Screen::Scan);
    assert!(rt.camera_running && !rt.stop_requested);
}

#[test]
fn scan_button_while_camera_busy_retries() {
    let (mut s, mut rt) = on_info();
    rt.camera_running = true;
    let step = handle_scan_button(&mut s, &mut rt, true, 10);
    assert_eq!(step, ScanButtonStep::ScanStarted(CameraStart::RetryLater));
    assert_eq!(s.screen, Screen::Scan);
}

#[test]
fn scan_button_without_permission_requests_once() {
    let (mut s, mut rt) = on_info();
    let step = handle_scan_button(&mut s, &mut rt, false, 500);
    assert_eq!(step, ScanButtonStep::PermissionRequested(true));
    assert!(rt.permission_pending && rt.permission_watchdog_running);
    assert_eq!(rt.permission_requested_at_ms, 500);
    assert_eq!(s.screen, Screen::Info);
    assert_eq!(handle_scan_button(&mut s, &mut rt, false, 600), ScanButtonStep::Ignored);
    assert_eq!(rt.permission_requested_at_ms, 500);
}

#[test]
fn scan_button_ignored_under_popup() {
    let (mut s, mut rt) = on_info();
    s.show_permission_popup = true;
    assert_eq!(handle_scan_button(&mut s, &mut rt, true, 1), ScanButtonStep::Ignored);
    s.show_permission_popup = false;
    rt.show_permission_settings_popup = true;
    assert_eq!(handle_scan_button(&mut s, &mut rt, true, 1), ScanButtonStep::Ignored);
    assert_eq!(s.screen, Screen::Info);
}

#[test]
fn scan_button_keeps_pending_result() {
    let (mut s, mut rt) = on_info();
    store_qr_result(&mut rt, "ACT-5".to_string());
    handle_scan_button(&mut s, &mut rt, true, 1);
    assert!(rt.qr_ready);
    assert_eq!(rt.qr_result, Some("ACT-5".to_string()));
}

#[test]
fn poll_after_grant_starts_scan() {
    let (mut s, mut rt) = on_info();
    handle_scan_button(&mut s, &mut rt, false, 100);
    assert_eq!(poll_permission_granted(&mut s, &mut rt, probe(false, None, false, 200)), PermissionStep::Waiting);
    let step = poll_permission_granted(&mut s, &mut rt, probe(true, None, true, 300));
    assert_eq!(step, PermissionStep::ScanStarted(CameraStart::Spawn));
    assert_eq!(s.screen, Screen::Scan);
    assert!(!rt.permission_pending && rt.camera_running);
    assert_eq!(poll_permission_granted(&mut s, &mut rt, probe(true, None, true, 400)), PermissionStep::Idle);
}

#[test]
fn poll_flags_denial() {
    let (mut s, mut rt) = on_info();
    handle_scan_button(&mut s, &mut rt, false, 100);
    let step = poll_permission_granted(&mut s, &mut rt, probe(false, Some(true), false, 500));
    assert_eq!(step, PermissionStep::Denied);
    assert!(rt.show_permission_settings_popup && !rt.permission_pending);
    assert_eq!(s.screen, Screen::Info);
}

#[test]
fn poll_with_camera_busy_closes_request() {
    let (mut s, mut rt) = on_info();
    handle_scan_button(&mut s, &mut rt, false, 100);
    rt.camera_running = true;
    assert_eq!(poll_permission_granted(&mut s, &mut rt, probe(true, None, true, 300)), PermissionStep::CameraBusy);
    assert!(!rt.permission_pending);
    assert_eq!(s.screen, Screen::Info);
}

#[test]
fn resume_after_grant_defers_camera() {
    let (mut s, mut rt) = on_info();
    handle_scan_button(&mut s, &mut rt, false, 100);
    let step = on_android_resumed(&mut s, &mut rt, probe(true, None, true, 300));
    assert_eq!(step, PermissionStep::ScanStartDeferred);
    assert_eq!(s.screen, Screen::Scan);
    assert!(!rt.camera_running && !rt.permission_pending);
}

#[test]
fn checks_only_on_info_screen() {
    let (mut s, mut rt) = on_info();
    handle_scan_button(&mut s, &mut rt, false, 100);
    s.set_screen(Screen::Success, &mut rt);
    assert_eq!(poll_permission_granted(&mut s, &mut rt, probe(true, None, true, 300)), PermissionStep::Idle);
    assert!(rt.permission_pending);
}

#[test]
fn watchdog_runs_once_and_stops_on_decision() {
    let mut rt = pending_since(100);
    assert!(start_permission_watchdog(&mut rt));
    assert!(!start_permission_watchdog(&mut rt));
    assert!(permission_watchdog_tick(&mut rt, probe(false, None, false, 200)));
    assert!(!permission_watchdog_tick(&mut rt, probe(true, None, false, 300)));
    assert!(rt.permission_pending);
    assert!(!permission_watchdog_tick(&mut rt, probe(false, Some(true), false, 600)));
    assert!(!rt.permission_pending && rt.show_permission_settings_popup);
    permission_watchdog_finished(&mut rt);
    assert!(!rt.permission_watchdog_running);
}

#[test]
fn verdicts() {
    assert_eq!(permission_verdict(true, None, 0), PermissionVerdict::Granted);
    assert_eq!(permission_verdict(false, Some(true), 5), PermissionVerdict::DeniedCanAskAgain);
    assert_eq!(permission_verdict(false, Some(false), 0), PermissionVerdict::NotRequestedYet);
    assert_eq!(permission_verdict(false, Some(false), 5), PermissionVerdict::DeniedDontAskAgainOrFirstDecision);
    assert_eq!(permission_verdict(false, None, 5), PermissionVerdict::DeniedRationaleUnknown);
}
