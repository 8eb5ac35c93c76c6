use scanner_signature_app::app_state::{
    accept_pad_pressed, after_event_loop, cancel_pad_pressed, capture_signature_pressed, clear_pad_pressed,
    close_permission_popup, commit_scan_result, draw_signature_pressed, edit_signature_pressed, finish_pressed,
    handle_system_back, launch_timer_elapsed, poll_qr_and_popup, save_signature_pressed, signature_save_message,
    EventLoopOutcome, LoopDecision, Orientation,
};
use scanner_signature_app::camera::{
    frame_gen, peek_qr_result, qr_result_ready, store_qr_result, CameraFrame, CameraRuntime, CameraStart,
    ScanButtonStep, publish_preview_frame,
};
use scanner_signature_app::{AppState, ScanMode, Screen};

type State = AppState<(f64, f64), (f64, f64)>;

fn start() -> (State, CameraRuntime) {
    let mut rt = CameraRuntime::new();
    let s = AppState::new(&mut rt, (0.0, 0.0));
    (s, rt)
}

fn at(screen: Screen) -> (State, CameraRuntime) {
    let (mut s, mut rt) = start();
    s.set_screen(screen, &mut rt);
    (s, rt)
}

#[test]
fn fresh_start_is_launch_screen() {
    let (s, rt) = start();
    assert_eq!(s.screen, Screen::Launch);
    assert!(s.running && s.keep_running());
    assert!(!s.show_permission_popup && !s.is_scanning);
    assert_eq!(s.scan_mode, ScanMode::Activation);
    assert!(s.signature_pad.can_draw && s.signature_pad.strokes.is_empty());
    assert!(!qr_result_ready(&rt));
}

#[test]
fn start_shows_requested_permission_popup() {
    let mut rt = CameraRuntime::new();
    rt.show_permission_settings_popup = true;
    let s: State = AppState::new(&mut rt, (0.0, 0.0));
    assert_eq!(s.screen, Screen::Launch);
    assert!(s.show_permission_popup);
    assert!(!rt.show_permission_settings_popup);
}

#[test]
fn restart_with_stored_qr_resumes_on_success() {
    let mut rt = CameraRuntime::new();
    store_qr_result(&mut rt, "ACT-9".to_string());
    let s: State = AppState::new(&mut rt, (0.0, 0.0));
    assert_eq!(s.screen, Screen::Success);
    assert_eq!(s.qr_result, Some("ACT-9".to_string()));
    assert!(qr_result_ready(&rt));
}

#[test]
fn launch_timer_goes_to_info_once() {
    let (mut s, mut rt) = start();
    launch_timer_elapsed(&mut s, &mut rt);
    assert_eq!(s.screen, Screen::Info);
    s.set_screen(Screen::Success, &mut rt);
    launch_timer_elapsed(&mut s, &mut rt);
    assert_eq!(s.screen, Screen::Success);
}

#[test]
fn set_screen_runs_preview_only_when_scanning() {
    let (mut s, mut rt) = start();
    s.show_permission_popup = true;
    s.show_permission_error = true;
    s.set_screen(Screen::Scan, &mut rt);
    assert!(s.is_scanning && !s.show_permission_popup && !s.show_permission_error);
    assert!(!rt.stop_requested);
    publish_preview_frame(&mut rt, CameraFrame { rgba: vec![1, 2, 3, 4], width: 1, height: 1 });
    let gen = frame_gen(&rt);
    s.set_screen(Screen::Info, &mut rt);
    assert!(!s.is_scanning);
    assert!(rt.stop_requested && rt.frame.is_none());
    assert_eq!(frame_gen(&rt), gen + 1);
}

#[test]
fn back_closes_popup_first() {
    let (mut s, mut rt) = at(Screen::Info);
    s.show_permission_popup = true;
    assert_eq!(handle_system_back(&mut s, &mut rt), None);
    assert!(!s.show_permission_popup);
    assert!(s.running);
    assert_eq!(s.screen, Screen::Info);
}

#[test]
fn back_on_launch_and_info_leaves() {
    let (mut s, mut rt) = at(Screen::Launch);
    handle_system_back(&mut s, &mut rt);
    assert!(!s.running && !s.keep_running());
    let (mut s, mut rt) = at(Screen::Info);
    handle_system_back(&mut s, &mut rt);
    assert!(!s.running);
}

#[test]
fn back_from_activation_scan_returns_to_info_and_drops_result() {
    let (mut s, mut rt) = at(Screen::Scan);
    store_qr_result(&mut rt, "LATE".to_string());
    s.qr_pending = true;
    assert_eq!(handle_system_back(&mut s, &mut rt), None);
    assert_eq!(s.screen, Screen::Info);
    assert!(s.qr_result.is_none() && !s.qr_pending && !s.is_scanning);
    assert_eq!(peek_qr_result(&mut rt), None);
}

#[test]
fn back_from_capture_scan_returns_to_success() {
    let (mut s, mut rt) = at(Screen::Scan);
    s.scan_mode = ScanMode::SignatureCapture;
    handle_system_back(&mut s, &mut rt);
    assert_eq!(s.screen, Screen::Success);
}

#[test]
fn back_steps_through_the_capture_screens() {
    let (mut s, mut rt) = at(Screen::Success);
    handle_system_back(&mut s, &mut rt);
    assert_eq!(s.screen, Screen::Info);
    let (mut s, mut rt) = at(Screen::SignatureCapture);
    handle_system_back(&mut s, &mut rt);
    assert_eq!(s.screen, Screen::Success);
}

#[test]
fn back_from_pad_and_preview() {
    let (mut s, mut rt) = at(Screen::SignaturePad);
    s.signature_pad.can_draw = false;
    assert_eq!(handle_system_back(&mut s, &mut rt), Some(Orientation::Portrait));
    assert_eq!(s.screen, Screen::SignatureCapture);
    assert!(s.signature_pad.can_draw);

    let (mut s, mut rt) = at(Screen::SignaturePreview);
    s.signature_pad.strokes = vec![vec![(1.0, 1.0), (2.0, 2.0)]];
    s.signature_pad.can_draw = false;
    assert_eq!(handle_system_back(&mut s, &mut rt), Some(Orientation::Landscape));
    assert_eq!(s.screen, Screen::SignaturePad);
    assert!(s.signature_pad_from_preview && s.signature_pad.can_draw);
    assert_eq!(handle_system_back(&mut s, &mut rt), Some(Orientation::Portrait));
    assert_eq!(s.screen, Screen::SignaturePreview);
    assert!(!s.signature_pad_from_preview);
    assert_eq!(s.signature_pad.strokes, vec![vec![(1.0, 1.0), (2.0, 2.0)]]);
}

#[test]
fn back_on_saved_finishes() {
    let (mut s, mut rt) = at(Screen::SignatureSaved);
    s.qr_result = Some("SIG".to_string());
    s.scan_mode = ScanMode::SignatureCapture;
    s.signature_save_message = Some("saved".to_string());
    s.signature_pad.strokes = vec![vec![(1.0, 1.0)]];
    store_qr_result(&mut rt, "SIG".to_string());
    assert_eq!(handle_system_back(&mut s, &mut rt), Some(Orientation::Portrait));
    assert_eq!(s.screen, Screen::SignatureCapture);
    assert!(s.qr_result.is_none() && s.signature_save_message.is_none());
    assert_eq!(s.scan_mode, ScanMode::Activation);
    assert!(s.signature_pad.strokes.is_empty());
    assert!(!qr_result_ready(&rt));
}

#[test]
fn scan_commit_goes_to_success_for_activation() {
    let (mut s, mut rt) = at(Screen::Scan);
    assert!(!commit_scan_result(&mut s, &mut rt));
    assert_eq!(s.screen, Screen::Scan);
    store_qr_result(&mut rt, "ACT-1".to_string());
    assert!(commit_scan_result(&mut s, &mut rt));
    assert_eq!(s.screen, Screen::Success);
    assert_eq!(s.qr_result, Some("ACT-1".to_string()));
    assert!(!s.qr_pending && !qr_result_ready(&rt));
}

#[test]
fn scan_commit_goes_to_capture_for_signatures() {
    let (mut s, mut rt) = at(Screen::Scan);
    s.scan_mode = ScanMode::SignatureCapture;
    s.qr_result = Some("SIG-1".to_string());
    assert!(commit_scan_result(&mut s, &mut rt));
    assert_eq!(s.screen, Screen::SignatureCapture);
    assert_eq!(s.qr_result, Some("SIG-1".to_string()));
}

#[test]
fn scan_commit_only_on_scan_screen() {
    let (mut s, mut rt) = at(Screen::Info);
    store_qr_result(&mut rt, "X".to_string());
    assert!(!commit_scan_result(&mut s, &mut rt));
    assert_eq!(s.screen, Screen::Info);
    assert!(qr_result_ready(&rt));
}

#[test]
fn frame_poll_picks_up_result_and_popup() {
    let (mut s, mut rt) = at(Screen::Scan);
    store_qr_result(&mut rt, "ACT-2".to_string());
    rt.show_permission_settings_popup = true;
    assert!(poll_qr_and_popup(&mut s, &mut rt));
    assert_eq!(s.screen, Screen::Success);
    assert_eq!(s.qr_result, Some("ACT-2".to_string()));
    assert!(!s.show_permission_popup);
    assert!(!rt.show_permission_settings_popup && !qr_result_ready(&rt));

    let (mut s, mut rt) = at(Screen::Info);
    rt.show_permission_settings_popup = true;
    s.show_permission_error = true;
    assert!(!poll_qr_and_popup(&mut s, &mut rt));
    assert!(s.show_permission_popup && !s.show_permission_error);
}

#[test]
fn popup_buttons_close_it() {
    let (mut s, _rt) = at(Screen::Info);
    s.show_permission_popup = true;
    close_permission_popup(&mut s);
    assert!(!s.show_permission_popup);
}

#[test]
fn capture_button_starts_a_signature_scan() {
    let (mut s, mut rt) = at(Screen::Success);
    s.qr_result = Some("ACT-1".to_string());
    let step = capture_signature_pressed(&mut s, &mut rt, true, 1000);
    assert_eq!(step, ScanButtonStep::ScanStarted(CameraStart::Spawn));
    assert_eq!(s.screen, Screen::Scan);
    assert_eq!(s.scan_mode, ScanMode::SignatureCapture);
    assert!(s.qr_result.is_none() && s.is_scanning && rt.camera_running);
}

#[test]
fn draw_accept_edit_cancel_save_finish() {
    let (mut s, mut rt) = at(Screen::SignatureCapture);
    s.signature_pad.strokes = vec![vec![(9.0, 9.0)]];
    assert_eq!(draw_signature_pressed(&mut s, &mut rt), Orientation::Landscape);
    assert_eq!(s.screen, Screen::SignaturePad);
    assert!(s.signature_pad.strokes.is_empty() && !s.signature_pad_from_preview);

    assert_eq!(accept_pad_pressed(&mut s, &mut rt), None);
    assert_eq!(s.screen, Screen::SignaturePad);

    s.signature_pad.begin_stroke((1.0, 1.0));
    assert_eq!(accept_pad_pressed(&mut s, &mut rt), Some(Orientation::Portrait));
    assert_eq!(s.screen, Screen::SignaturePreview);
    assert!(!s.signature_pad.can_draw);

    assert_eq!(edit_signature_pressed(&mut s, &mut rt), Orientation::Landscape);
    assert_eq!(s.screen, Screen::SignaturePad);
    assert!(s.signature_pad_from_preview && s.signature_pad.can_draw);
    assert_eq!(s.signature_pad.strokes, vec![vec![(1.0, 1.0)]]);

    assert_eq!(cancel_pad_pressed(&mut s, &mut rt), Orientation::Portrait);
    assert_eq!(s.screen, Screen::SignaturePreview);
    assert!(!s.signature_pad_from_preview && s.signature_pad.strokes.is_empty());

    assert_eq!(save_signature_pressed(&mut s, &mut rt, Ok("/data/sig.png".to_string())), Orientation::Portrait);
    assert_eq!(s.screen, Screen::SignatureSaved);
    assert_eq!(s.signature_save_message, Some("Signature saved successfully.\n/data/sig.png".to_string()));

    assert_eq!(finish_pressed(&mut s, &mut rt), Some(Orientation::Portrait));
    assert_eq!(s.screen, Screen::SignatureCapture);
    assert!(s.signature_save_message.is_none());
}

#[test]
fn cancel_without_preview_returns_to_capture() {
    let (mut s, mut rt) = at(Screen::SignaturePad);
    s.signature_pad.begin_stroke((1.0, 1.0));
    cancel_pad_pressed(&mut s, &mut rt);
    assert_eq!(s.screen, Screen::SignatureCapture);
    assert!(s.signature_pad.strokes.is_empty());
}

#[test]
fn clear_button_empties_pad_and_bumps_counter() {
    let (mut s, _rt) = at(Screen::SignaturePad);
    s.signature_pad.begin_stroke((1.0, 1.0));
    s.signature_pad.can_draw = false;
    let mut gen = 3u64;
    clear_pad_pressed(&mut s, &mut gen);
    assert!(s.signature_pad.strokes.is_empty() && s.signature_pad.can_draw);
    assert_eq!(gen, 4);
    assert_eq!(s.screen, Screen::SignaturePad);
}

#[test]
fn save_failure_message() {
    assert_eq!(
        signature_save_message(&Err("no signature to save".to_string())),
        "Signature could not be saved: no signature to save"
    );
    let (mut s, mut rt) = at(Screen::SignaturePreview);
    save_signature_pressed(&mut s, &mut rt, Err("save failed".to_string()));
    assert_eq!(s.signature_save_message, Some("Signature could not be saved: save failed".to_string()));
}

#[test]
fn event_loop_restart_policy() {
    let mut rt = CameraRuntime::new();
    store_qr_result(&mut rt, "KEEP".to_string());
    rt.camera_running = true;
    assert_eq!(after_event_loop(EventLoopOutcome::Finished, &mut rt), LoopDecision::Stop);
    assert!(rt.camera_running);
    assert_eq!(after_event_loop(EventLoopOutcome::Panicked, &mut rt), LoopDecision::RestartAfterResume);
    assert!(!rt.camera_running && rt.stop_requested);
    assert_eq!(peek_qr_result(&mut rt), Some("KEEP".to_string()));
    assert_eq!(after_event_loop(EventLoopOutcome::RecreationAttempt, &mut rt), LoopDecision::RestartAfterResume);
    assert_eq!(after_event_loop(EventLoopOutcome::ExitFailure, &mut rt), LoopDecision::Stop);
    assert_eq!(after_event_loop(EventLoopOutcome::OsError, &mut rt), LoopDecision::Stop);
    assert_eq!(after_event_loop(EventLoopOutcome::NotSupported, &mut rt), LoopDecision::Stop);
}
