//! The screens of the application and the transitions between them: the
//! system back action, the QR commit after a scan, and the buttons of each
//! screen.

use vstd::prelude::*;
use vstd::string::*;
use crate::camera::{
    CameraRuntime, after_hide, after_peek, clear_qr_result, consume_qr_result, hide_camera_overlay,
    peek_qr_result, pending_qr, qr_result_ready, show_camera_overlay, take_permission_settings_popup_request,
    without_qr, reset_runtime, reset_runtime_state, ScanButtonStep, scan_button_effect, handle_scan_button,
};
use crate::signature_pad::{SignaturePadState, has_points, notify_signature_pad_changed};

verus! {

/// The screens of the application.
#[derive(Clone, Copy, Debug, PartialEq, Eq, Structural)]
pub enum Screen {
    Launch,
    Info,
    Scan,
    Success,
    SignatureCapture,
    SignaturePad,
    SignaturePreview,
    SignatureSaved,
}

/// What a QR scan is for.
#[derive(Clone, Copy, Debug, PartialEq, Eq, Structural)]
pub enum ScanMode {
    Activation,
    SignatureCapture,
}

/// The screen orientation a transition asks the platform for.
#[derive(Clone, Copy, Debug, PartialEq, Eq, Structural)]
pub enum Orientation {
    Portrait,
    Landscape,
}

/// The state of the UI.
pub struct AppState<P, S> {
    pub screen: Screen,
    pub running: bool,
    pub show_permission_error: bool,
    pub show_permission_popup: bool,
    pub is_scanning: bool,
    pub qr_result: Option<String>,
    pub qr_pending: bool,
    pub scan_mode: ScanMode,
    pub signature_pad_from_preview: bool,
    pub signature_pad: SignaturePadState<P, S>,
    pub signature_save_message: Option<String>,
}

/// An optional string as an optional sequence of characters.
pub open spec fn opt_str(o: Option<String>) -> Option<Seq<char>> {
    match o {
        Some(s) => Some(s@),
        None => None,
    }
}

/// The screen a successful scan leads to.
pub open spec fn screen_after_scan(mode: ScanMode) -> Screen {
    match mode {
        ScanMode::Activation => Screen::Success,
        ScanMode::SignatureCapture => Screen::SignatureCapture,
    }
}

/// The state after `set_screen(screen)`.
pub open spec fn with_screen<P, S>(s: AppState<P, S>, screen: Screen) -> AppState<P, S> {
    AppState {
        screen,
        show_permission_error: false,
        show_permission_popup: false,
        is_scanning: screen == Screen::Scan,
        ..s
    }
}

/// The camera runtime after `set_screen(screen)`.
pub open spec fn camera_for_screen(rt: CameraRuntime, screen: Screen) -> CameraRuntime {
    if screen == Screen::Scan {
        rt
    } else {
        after_hide(rt)
    }
}

/// The pad with drawing enabled.
pub open spec fn pad_drawable<P, S>(pad: SignaturePadState<P, S>) -> SignaturePadState<P, S> {
    SignaturePadState { can_draw: true, ..pad }
}

/// `new` is `old` with its strokes removed and drawing enabled.
pub open spec fn pad_cleared<P, S>(new: SignaturePadState<P, S>, old: SignaturePadState<P, S>) -> bool {
    &&& new.strokes@.len() == 0
    &&& new.can_draw
    &&& new.canvas_size == old.canvas_size
}

/// What the start-up state is, given the runtime before (`rt`) and after
/// (`new_rt`): a QR result that survived a restart leads straight to the
/// success screen with that result; otherwise the launch screen, with the
/// permission popup if one was asked for.
pub open spec fn startup_effect<P, S>(rt: CameraRuntime, canvas_size: S, s: AppState<P, S>, new_rt: CameraRuntime) -> bool {
    &&& s.running
    &&& !s.show_permission_error
    &&& !s.is_scanning
    &&& !s.qr_pending
    &&& s.scan_mode == ScanMode::Activation
    &&& !s.signature_pad_from_preview
    &&& s.signature_pad.strokes@.len() == 0
    &&& s.signature_pad.can_draw
    &&& s.signature_pad.canvas_size == canvas_size
    &&& s.signature_save_message is None
    &&& rt.qr_ready ==> {
        &&& s.screen == Screen::Success
        &&& !s.show_permission_popup
        &&& opt_str(s.qr_result) == pending_qr(rt)
        &&& new_rt == after_peek(rt)
    }
    &&& !rt.qr_ready ==> {
        &&& s.screen == Screen::Launch
        &&& s.show_permission_popup == rt.show_permission_settings_popup
        &&& s.qr_result is None
        &&& new_rt == (CameraRuntime { show_permission_settings_popup: false, ..rt })
    }
}

impl<P, S> AppState<P, S> {
    /// The state at start-up; see `startup_effect`.
    pub fn new(rt: &mut CameraRuntime, canvas_size: S) -> (s: Self)
        ensures
            startup_effect(*old(rt), canvas_size, s, *final(rt)),
    {
        if qr_result_ready(rt) {
            let qr = peek_qr_result(rt);
            return AppState {
                screen: Screen::Success,
                running: true,
                show_permission_error: false,
                show_permission_popup: false,
                is_scanning: false,
                qr_result: qr,
                qr_pending: false,
                scan_mode: ScanMode::Activation,
                signature_pad_from_preview: false,
                signature_pad: SignaturePadState::new(canvas_size),
                signature_save_message: None,
            };
        }
        let show_permission_popup = take_permission_settings_popup_request(rt);
        AppState {
            screen: Screen::Launch,
            running: true,
            show_permission_error: false,
            show_permission_popup,
            is_scanning: false,
            qr_result: None,
            qr_pending: false,
            scan_mode: ScanMode::Activation,
            signature_pad_from_preview: false,
            signature_pad: SignaturePadState::new(canvas_size),
            signature_save_message: None,
        }
    }

    /// Switches to `screen`: closes the permission error and popup, and runs
    /// the camera preview exactly on the scan screen.
    pub fn set_screen(&mut self, screen: Screen, rt: &mut CameraRuntime)
        ensures
            *final(self) == with_screen(*old(self), screen),
            *final(rt) == camera_for_screen(*old(rt), screen),
    {
        self.screen = screen;
        self.show_permission_error = false;
        self.show_permission_popup = false;
        match screen {
            Screen::Scan => {
                self.is_scanning = true;
                show_camera_overlay(rt);
            },
            _ => {
                self.is_scanning = false;
                hide_camera_overlay(rt);
            },
        }
    }

    /// Whether the application keeps running.
    pub fn keep_running(&self) -> (r: bool)
        ensures
            r == self.running,
    {
        self.running
    }
}

/// What the system back action does: `state`/`rt` before, `new_state`/
/// `new_rt` after, `o` the orientation asked for.
pub open spec fn system_back_effect<P, S>(
    state: AppState<P, S>,
    rt: CameraRuntime,
    new_state: AppState<P, S>,
    new_rt: CameraRuntime,
    o: Option<Orientation>,
) -> bool {
    &&& (state.show_permission_popup ==> {
        &&& new_state == (AppState { show_permission_popup: false, ..state })
        &&& new_rt == rt
        &&& o is None
    })
    &&& (!state.show_permission_popup ==> match state.screen {
        Screen::Launch | Screen::Info => {
            &&& new_state == (AppState { running: false, ..state })
            &&& new_rt == rt
            &&& o is None
        },
        Screen::Scan => {
            let target = if state.scan_mode == ScanMode::Activation {
                Screen::Info
            } else {
                Screen::Success
            };
            &&& new_state == with_screen(
                AppState { qr_result: None, qr_pending: false, ..state },
                target,
            )
            &&& new_rt == after_hide(without_qr(rt))
            &&& o is None
        },
        Screen::Success => {
            &&& new_state == with_screen(state, Screen::Info)
            &&& new_rt == after_hide(rt)
            &&& o is None
        },
        Screen::SignatureCapture => {
            &&& new_state == with_screen(state, Screen::Success)
            &&& new_rt == after_hide(rt)
            &&& o is None
        },
        Screen::SignaturePad => {
            let target = if state.signature_pad_from_preview {
                Screen::SignaturePreview
            } else {
                Screen::SignatureCapture
            };
            &&& new_state == with_screen(
                AppState {
                    signature_pad: pad_drawable(state.signature_pad),
                    signature_pad_from_preview: false,
                    ..state
                },
                target,
            )
            &&& new_rt == after_hide(rt)
            &&& o == Some(Orientation::Portrait)
        },
        Screen::SignaturePreview => {
            &&& new_state == with_screen(
                AppState {
                    signature_pad: pad_drawable(state.signature_pad),
                    signature_pad_from_preview: true,
                    ..state
                },
                Screen::SignaturePad,
            )
            &&& new_rt == after_hide(rt)
            &&& o == Some(Orientation::Landscape)
        },
        Screen::SignatureSaved => {
            &&& finished_signature(new_state, state)
            &&& new_rt == after_hide(without_qr(rt))
            &&& o == Some(Orientation::Portrait)
        }
    })
}

/// The system back action: closes the permission popup if it is open,
/// otherwise steps back one screen (leaving the application from the launch
/// and info screens). Returns the orientation it asks for, if any.
pub fn handle_system_back<P, S>(state: &mut AppState<P, S>, rt: &mut CameraRuntime) -> (orientation: Option<Orientation>)
    ensures
        system_back_effect(*old(state), *old(rt), *final(state), *final(rt), orientation),
{
    if state.show_permission_popup {
        state.show_permission_popup = false;
        return None;
    }
    match state.screen {
        Screen::Launch => {
            state.running = false;
            None
        },
        Screen::Info => {
            state.running = false;
            None
        },
        Screen::Scan => {
            state.qr_result = None;
            state.qr_pending = false;
            clear_qr_result(rt);
            let target = match state.scan_mode {
                ScanMode::Activation => Screen::Info,
                ScanMode::SignatureCapture => Screen::Success,
            };
            state.set_screen(target, rt);
            None
        },
        Screen::Success => {
            state.set_screen(Screen::Info, rt);
            None
        },
        Screen::SignatureCapture => {
            state.set_screen(Screen::Success, rt);
            None
        },
        Screen::SignaturePad => {
            state.signature_pad.can_draw = true;
            if state.signature_pad_from_preview {
                state.signature_pad_from_preview = false;
                state.set_screen(Screen::SignaturePreview, rt);
            } else {
                state.set_screen(Screen::SignatureCapture, rt);
            }
            Some(Orientation::Portrait)
        },
        Screen::SignaturePreview => {
            state.signature_pad.can_draw = true;
            state.signature_pad_from_preview = true;
            state.set_screen(Screen::SignaturePad, rt);
            Some(Orientation::Landscape)
        },
        Screen::SignatureSaved => finish_pressed(state, rt),
    }
}

/// The screen a successful scan leads to.
pub fn next_screen_after_scan(mode: ScanMode) -> (screen: Screen)
    ensures
        screen == screen_after_scan(mode),
{
    match mode {
        ScanMode::Activation => Screen::Success,
        ScanMode::SignatureCapture => Screen::SignatureCapture,
    }
}

/// `new` is the state after the Finish button on `old`: the QR result is
/// dropped, the scan mode reset, the save message and the strokes cleared,
/// and the signature-capture screen shown.
pub open spec fn finished_signature<P, S>(new: AppState<P, S>, old: AppState<P, S>) -> bool {
    &&& new == with_screen(
        AppState {
            qr_result: None,
            qr_pending: false,
            scan_mode: ScanMode::Activation,
            signature_save_message: None,
            signature_pad: new.signature_pad,
            ..old
        },
        Screen::SignatureCapture,
    )
    &&& pad_cleared(new.signature_pad, old.signature_pad)
}

/// What the Finish button of the saved screen does.
pub open spec fn finish_effect<P, S>(state: AppState<P, S>, rt: CameraRuntime, new_state: AppState<P, S>, new_rt: CameraRuntime, o: Option<Orientation>) -> bool {
    &&& (finished_signature(new_state, state))
    &&& (new_rt == after_hide(without_qr(rt)))
    &&& (o == Some(Orientation::Portrait))
}

/// The Finish button of the saved screen: drops the QR result, resets the
/// scan mode, clears the message and the pad, and returns to the
/// signature-capture screen in portrait.
pub fn finish_pressed<P, S>(state: &mut AppState<P, S>, rt: &mut CameraRuntime) -> (orientation: Option<Orientation>)
    ensures
        finish_effect(*old(state), *old(rt), *final(state), *final(rt), orientation),
{
    state.qr_result = None;
    state.qr_pending = false;
    state.scan_mode = ScanMode::Activation;
    consume_qr_result(rt);
    state.signature_save_message = None;
    state.signature_pad.clear_strokes();
    state.set_screen(Screen::SignatureCapture, rt);
    Some(Orientation::Portrait)
}


/// What `commit_scan_result` does; `c` tells whether it committed.
pub open spec fn commit_effect<P, S>(state: AppState<P, S>, rt: CameraRuntime, new_state: AppState<P, S>, new_rt: CameraRuntime, c: bool) -> bool {
    &&& (c == (state.screen == Screen::Scan && (state.qr_result is Some || pending_qr(rt) is Some)))
    &&& (c ==> {
        let chosen = if state.qr_result is Some { state.qr_result } else { new_state.qr_result };
        &&& opt_str(chosen) == (if state.qr_result is Some {
            opt_str(state.qr_result)
        } else {
            pending_qr(rt)
        })
        &&& new_state == with_screen(
            AppState { qr_result: chosen, qr_pending: false, ..state },
            screen_after_scan(state.scan_mode),
        )
        &&& new_rt == after_hide(without_qr(rt))
    })
    &&& (!c && state.screen == Screen::Scan ==> new_state == state && new_rt == after_peek(
        rt))
    &&& (state.screen != Screen::Scan ==> new_state == state && new_rt == rt)
}

/// On the scan screen, takes a QR result held by the state or waiting in
/// the runtime and moves on to the screen the scan was for, consuming the
/// result. Returns whether it did.
pub fn commit_scan_result<P, S>(state: &mut AppState<P, S>, rt: &mut CameraRuntime) -> (committed: bool)
    ensures
        commit_effect(*old(state), *old(rt), *final(state), *final(rt), committed),
{
    if state.screen != Screen::Scan {
        return false;
    }
    if state.qr_result.is_none() {
        let peeked = peek_qr_result(rt);
        if peeked.is_some() {
            state.qr_result = peeked;
            state.qr_pending = true;
        }
    }
    if state.qr_result.is_some() || qr_result_ready(rt) {
        if state.qr_result.is_none() {
            state.qr_result = peek_qr_result(rt);
        }
        if state.qr_result.is_some() {
            let next = next_screen_after_scan(state.scan_mode);
            state.qr_pending = false;
            state.set_screen(next, rt);
            consume_qr_result(rt);
            return true;
        }
    }
    false
}

/// The per-frame update after the permission checks: shows the permission
/// popup if one was asked for; on the scan screen picks up a waiting QR
/// result; and moves on once a result is pending. Returns whether it moved
/// on.
pub fn poll_qr_and_popup<P, S>(state: &mut AppState<P, S>, rt: &mut CameraRuntime) -> (moved: bool)
    ensures
        ({
            let popup = old(rt).show_permission_settings_popup;
            let s1 = if popup {
                AppState { show_permission_popup: true, show_permission_error: false, ..*old(state) }
            } else {
                *old(state)
            };
            let rt1 = CameraRuntime { show_permission_settings_popup: false, ..*old(rt) };
            let picks = !s1.qr_pending && s1.screen == Screen::Scan && pending_qr(rt1) is Some;
            let rt2 = if !s1.qr_pending { after_peek(rt1) } else { rt1 };
            &&& moved == (picks || (s1.qr_pending && s1.qr_result is Some))
            &&& picks ==> opt_str(final(state).qr_result) == pending_qr(rt1)
            &&& moved ==> *final(state) == with_screen(
                AppState { qr_result: final(state).qr_result, qr_pending: false, ..s1 },
                screen_after_scan(s1.scan_mode),
            )
            &&& moved && !picks ==> final(state).qr_result == s1.qr_result
            &&& moved ==> *final(rt) == after_hide(without_qr(rt2))
            &&& !moved ==> *final(state) == s1 && *final(rt) == rt2
        }),
{
    if take_permission_settings_popup_request(rt) {
        state.show_permission_popup = true;
        state.show_permission_error = false;
    }
    if !state.qr_pending {
        let peeked = peek_qr_result(rt);
        if peeked.is_some() {
            if state.screen == Screen::Scan {
                state.qr_result = peeked;
                state.qr_pending = true;
            }
        }
    }
    if state.qr_pending && state.qr_result.is_some() {
        let next = next_screen_after_scan(state.scan_mode);
        state.qr_pending = false;
        state.set_screen(next, rt);
        consume_qr_result(rt);
        return true;
    }
    false
}

/// The launch screen's timer has run out: go on to the info screen.
pub fn launch_timer_elapsed<P, S>(state: &mut AppState<P, S>, rt: &mut CameraRuntime)
    ensures
        old(state).screen == Screen::Launch ==> *final(state) == with_screen(*old(state), Screen::Info) && *final(rt)
            == after_hide(*old(rt)),
        old(state).screen != Screen::Launch ==> *final(state) == *old(state) && *final(rt) == *old(rt),
{
    if state.screen == Screen::Launch {
        state.set_screen(Screen::Info, rt);
    }
}

/// Closes the permission popup (its Cancel and Go-to-Settings buttons).
pub fn close_permission_popup<P, S>(state: &mut AppState<P, S>)
    ensures
        *final(state) == (AppState { show_permission_popup: false, ..*old(state) }),
{
    state.show_permission_popup = false;
}

/// What the Draw Signature button does.
pub open spec fn draw_effect<P, S>(state: AppState<P, S>, rt: CameraRuntime, new_state: AppState<P, S>, new_rt: CameraRuntime, o: Orientation) -> bool {
    &&& (new_state == with_screen(
        AppState { signature_pad_from_preview: false, signature_pad: new_state.signature_pad, ..state },
        Screen::SignaturePad))
    &&& (pad_cleared(new_state.signature_pad, state.signature_pad))
    &&& (new_rt == after_hide(rt))
    &&& (o == Orientation::Landscape)
}

/// The Draw Signature button: an empty pad, in landscape, not coming from
/// the preview.
pub fn draw_signature_pressed<P, S>(state: &mut AppState<P, S>, rt: &mut CameraRuntime) -> (orientation: Orientation)
    ensures
        draw_effect(*old(state), *old(rt), *final(state), *final(rt), orientation),
{
    state.signature_pad_from_preview = false;
    state.signature_pad.clear_strokes();
    state.set_screen(Screen::SignaturePad, rt);
    Orientation::Landscape
}

/// The Clear button of the pad: removes the strokes and advances the pad's
/// change counter so it repaints.
pub fn clear_pad_pressed<P, S>(state: &mut AppState<P, S>, pad_gen: &mut u64)
    ensures
        *final(state) == (AppState { signature_pad: final(state).signature_pad, ..*old(state) }),
        pad_cleared(final(state).signature_pad, old(state).signature_pad),
        *final(pad_gen) == crate::camera::next_gen(*old(pad_gen)),
{
    state.signature_pad.clear_strokes();
    notify_signature_pad_changed(pad_gen);
}

/// What the Cancel button of the pad does.
pub open spec fn cancel_pad_effect<P, S>(state: AppState<P, S>, rt: CameraRuntime, new_state: AppState<P, S>, new_rt: CameraRuntime, o: Orientation) -> bool {
    &&& (new_state == with_screen(
        AppState { signature_pad_from_preview: false, signature_pad: new_state.signature_pad, ..state },
        if state.signature_pad_from_preview {
            Screen::SignaturePreview
        } else {
            Screen::SignatureCapture
        }))
    &&& (pad_cleared(new_state.signature_pad, state.signature_pad))
    &&& (new_rt == after_hide(rt))
    &&& (o == Orientation::Portrait)
}

/// The Cancel button of the pad: discards the strokes and returns, in
/// portrait, to the preview if the pad was opened from there, else to the
/// signature-capture screen.
pub fn cancel_pad_pressed<P, S>(state: &mut AppState<P, S>, rt: &mut CameraRuntime) -> (orientation: Orientation)
    ensures
        cancel_pad_effect(*old(state), *old(rt), *final(state), *final(rt), orientation),
{
    state.signature_pad.clear_strokes();
    if state.signature_pad_from_preview {
        state.signature_pad_from_preview = false;
        state.set_screen(Screen::SignaturePreview, rt);
    } else {
        state.set_screen(Screen::SignatureCapture, rt);
    }
    Orientation::Portrait
}

/// What the Accept button of the pad does.
pub open spec fn accept_effect<P, S>(state: AppState<P, S>, rt: CameraRuntime, new_state: AppState<P, S>, new_rt: CameraRuntime, o: Option<Orientation>) -> bool {
    &&& (!has_points(state.signature_pad.stroke_view()) ==> new_state == state && new_rt == rt
        && o is None)
    &&& (has_points(state.signature_pad.stroke_view()) ==> {
        &&& new_state == with_screen(
            AppState {
                signature_pad: SignaturePadState { can_draw: false, ..state.signature_pad },
                ..state
            },
            Screen::SignaturePreview,
        )
        &&& new_rt == after_hide(rt)
        &&& o == Some(Orientation::Portrait)
    })
}

/// The Accept button of the pad: with something drawn, freezes the pad and
/// shows the preview in portrait; with nothing drawn it does nothing.
pub fn accept_pad_pressed<P, S>(state: &mut AppState<P, S>, rt: &mut CameraRuntime) -> (orientation: Option<Orientation>)
    ensures
        accept_effect(*old(state), *old(rt), *final(state), *final(rt), orientation),
{
    if !state.signature_pad.has_signature() {
        return None;
    }
    state.signature_pad.can_draw = false;
    state.set_screen(Screen::SignaturePreview, rt);
    Some(Orientation::Portrait)
}

/// What the Edit button of the preview does.
pub open spec fn edit_effect<P, S>(state: AppState<P, S>, rt: CameraRuntime, new_state: AppState<P, S>, new_rt: CameraRuntime, o: Orientation) -> bool {
    &&& (new_state == with_screen(
        AppState {
            signature_pad_from_preview: true,
            signature_pad: pad_drawable(state.signature_pad),
            ..state
        },
        Screen::SignaturePad))
    &&& (new_rt == after_hide(rt))
    &&& (o == Orientation::Landscape)
}

/// The Edit button of the preview: back to the pad, drawing enabled, in
/// landscape, remembering that the pad was opened from the preview.
pub fn edit_signature_pressed<P, S>(state: &mut AppState<P, S>, rt: &mut CameraRuntime) -> (orientation: Orientation)
    ensures
        edit_effect(*old(state), *old(rt), *final(state), *final(rt), orientation),
{
    state.signature_pad_from_preview = true;
    state.signature_pad.can_draw = true;
    state.set_screen(Screen::SignaturePad, rt);
    Orientation::Landscape
}

/// The message shown after a save: the file path on success, the reason on
/// failure.
pub open spec fn save_message(outcome: Result<String, String>) -> Seq<char> {
    match outcome {
        Ok(path) => "Signature saved successfully.\n"@ + path@,
        Err(e) => "Signature could not be saved: "@ + e@,
    }
}

/// The message shown after a save.
pub fn signature_save_message(outcome: &Result<String, String>) -> (msg: String)
    ensures
        msg@ == save_message(*outcome),
{
    match outcome {
        Ok(path) => {
            let mut msg = String::from_str("Signature saved successfully.\n");
            msg.append(path.as_str());
            msg
        },
        Err(e) => {
            let mut msg = String::from_str("Signature could not be saved: ");
            msg.append(e.as_str());
            msg
        },
    }
}

/// The Save button of the preview, once the save was attempted: drawing is
/// enabled again, the outcome is reported, and the saved screen is shown in
/// portrait.
pub fn save_signature_pressed<P, S>(
    state: &mut AppState<P, S>,
    rt: &mut CameraRuntime,
    outcome: Result<String, String>,
) -> (orientation: Orientation)
    ensures
        *final(state) == with_screen(
            AppState {
                signature_pad: pad_drawable(old(state).signature_pad),
                signature_save_message: final(state).signature_save_message,
                ..*old(state)
            },
            Screen::SignatureSaved,
        ),
        opt_str(final(state).signature_save_message) == Some(save_message(outcome)),
        *final(rt) == after_hide(*old(rt)),
        orientation == Orientation::Portrait,
{
    state.signature_pad.can_draw = true;
    let msg = signature_save_message(&outcome);
    state.signature_save_message = Some(msg);
    state.set_screen(Screen::SignatureSaved, rt);
    Orientation::Portrait
}


/// The Capture Signature button of the success screen: drops the previous
/// QR result, switches the scan mode to signature capture and presses the
/// scan button.
pub fn capture_signature_pressed<P, S>(state: &mut AppState<P, S>, rt: &mut CameraRuntime, granted: bool, now_ms: u64) -> (step: ScanButtonStep)
    ensures
        scan_button_effect(
            AppState { qr_result: None, qr_pending: false, scan_mode: ScanMode::SignatureCapture, ..*old(state) },
            without_qr(*old(rt)),
            granted,
            now_ms,
            *final(state),
            *final(rt),
            step,
        ),
{
    state.qr_result = None;
    state.qr_pending = false;
    clear_qr_result(rt);
    state.scan_mode = ScanMode::SignatureCapture;
    handle_scan_button(state, rt, granted, now_ms)
}


/// How a run of the UI event loop ended.
#[derive(Clone, Copy, Debug, PartialEq, Eq, Structural)]
pub enum EventLoopOutcome {
    /// The loop ended normally.
    Finished,
    /// The platform asked to recreate the loop.
    RecreationAttempt,
    /// The loop exited with a failure status.
    ExitFailure,
    /// The operating system reported an error.
    OsError,
    /// The platform does not support the loop.
    NotSupported,
    /// The loop panicked (for instance on a lost graphics device).
    Panicked,
}

/// What to do after the event loop ended.
#[derive(Clone, Copy, Debug, PartialEq, Eq, Structural)]
pub enum LoopDecision {
    /// Leave the application.
    Stop,
    /// Wait until the activity is resumed, then run the loop again.
    RestartAfterResume,
}

/// After the UI event loop ended: a normal end stops; a recreation request
/// or a panic restarts after the activity resumes; other errors stop. In
/// every case but a normal end the camera runtime is reset first (a pending
/// QR result is kept for the restart).
pub fn after_event_loop(outcome: EventLoopOutcome, rt: &mut CameraRuntime) -> (d: LoopDecision)
    ensures
        outcome == EventLoopOutcome::Finished ==> d == LoopDecision::Stop && *final(rt) == *old(rt),
        outcome != EventLoopOutcome::Finished ==> *final(rt) == reset_runtime(*old(rt)),
        (outcome == EventLoopOutcome::RecreationAttempt || outcome == EventLoopOutcome::Panicked) ==> d
            == LoopDecision::RestartAfterResume,
        (outcome == EventLoopOutcome::ExitFailure || outcome == EventLoopOutcome::OsError || outcome
            == EventLoopOutcome::NotSupported) ==> d == LoopDecision::Stop,
{
    match outcome {
        EventLoopOutcome::Finished => LoopDecision::Stop,
        EventLoopOutcome::RecreationAttempt => {
            reset_runtime_state(rt);
            LoopDecision::RestartAfterResume
        },
        EventLoopOutcome::ExitFailure => {
            reset_runtime_state(rt);
            LoopDecision::Stop
        },
        EventLoopOutcome::OsError => {
            reset_runtime_state(rt);
            LoopDecision::Stop
        },
        EventLoopOutcome::NotSupported => {
            reset_runtime_state(rt);
            LoopDecision::Stop
        },
        EventLoopOutcome::Panicked => {
            reset_runtime_state(rt);
            LoopDecision::RestartAfterResume
        },
    }
}

} // verus!
