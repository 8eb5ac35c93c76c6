//! State shared between the camera thread and the UI: screen size, the
//! latest preview frame, the two-phase QR hand-off and the permission flags.

use vstd::prelude::*;
use crate::app_state::{AppState, Screen, with_screen};

verus! {

/// A preview frame in RGBA8, row-major.
pub struct CameraFrame {
    pub rgba: Vec<u8>,
    pub width: u32,
    pub height: u32,
}

/// Everything the camera thread and the UI share.
pub struct CameraRuntime {
    pub screen_w: u32,
    pub screen_h: u32,
    pub frame: Option<CameraFrame>,
    pub frame_gen: u64,
    pub qr_ready: bool,
    pub qr_result: Option<String>,
    pub camera_running: bool,
    pub stop_requested: bool,
    pub dev_disconnected: bool,
    pub dev_error: bool,
    pub qr_found_exit: bool,
    pub permission_pending: bool,
    pub permission_watchdog_running: bool,
    pub permission_requested_at_ms: u64,
    pub show_permission_settings_popup: bool,
}

/// The QR value that a reader sees: a result is pending exactly when the
/// ready flag is set and a string is stored.
pub open spec fn pending_qr(rt: CameraRuntime) -> Option<Seq<char>> {
    if rt.qr_ready {
        match rt.qr_result {
            Some(s) => Some(s@),
            None => None,
        }
    } else {
        None
    }
}

impl CameraRuntime {
    /// The runtime as it is at process start.
    pub fn new() -> (rt: CameraRuntime)
        ensures
            rt.screen_w == 1080,
            rt.screen_h == 1920,
            rt.frame is None,
            rt.frame_gen == 0,
            !rt.qr_ready,
            rt.qr_result is None,
            !rt.camera_running,
            !rt.stop_requested,
            !rt.dev_disconnected,
            !rt.dev_error,
            !rt.qr_found_exit,
            !rt.permission_pending,
            !rt.permission_watchdog_running,
            rt.permission_requested_at_ms == 0,
            !rt.show_permission_settings_popup,
    {
        CameraRuntime {
            screen_w: 1080,
            screen_h: 1920,
            frame: None,
            frame_gen: 0,
            qr_ready: false,
            qr_result: None,
            camera_running: false,
            stop_requested: false,
            dev_disconnected: false,
            dev_error: false,
            qr_found_exit: false,
            permission_pending: false,
            permission_watchdog_running: false,
            permission_requested_at_ms: 0,
            show_permission_settings_popup: false,
        }
    }
}

/// Stores a decoded QR text and raises the ready flag.
pub fn store_qr_result(rt: &mut CameraRuntime, s: String)
    ensures
        *final(rt) == (CameraRuntime { qr_ready: true, qr_result: Some(s), ..*old(rt) }),
        pending_qr(*final(rt)) == Some(s@),
{
    rt.qr_result = Some(s);
    rt.qr_ready = true;
}

/// Returns a copy of the pending QR text without removing it. When the flag
/// is set but no text is stored, the flag is cleared and `None` returned.
pub fn peek_qr_result(rt: &mut CameraRuntime) -> (res: Option<String>)
    ensures
        res matches Some(s) ==> Some(s@) == pending_qr(*old(rt)),
        res is None ==> pending_qr(*old(rt)) is None,
        *final(rt) == after_peek(*old(rt)),
        pending_qr(*final(rt)) == pending_qr(*old(rt)),
{
    if !rt.qr_ready {
        return None;
    }
    let result = match &rt.qr_result {
        Some(s) => Some(s.clone()),
        None => None,
    };
    if result.is_none() {
        rt.qr_ready = false;
    }
    result
}


/// Commits a QR hand-off: lowers the flag and drops the stored text.
pub fn consume_qr_result(rt: &mut CameraRuntime)
    ensures
        *final(rt) == without_qr(*old(rt)),
        pending_qr(*final(rt)) is None,
{
    rt.qr_ready = false;
    rt.qr_result = None;
}

/// Whether a QR result is waiting.
pub fn qr_result_ready(rt: &CameraRuntime) -> (ready: bool)
    ensures
        ready == rt.qr_ready,
{
    rt.qr_ready
}

/// Drops any stale QR result before a new scan.
pub fn clear_qr_result(rt: &mut CameraRuntime)
    ensures
        *final(rt) == without_qr(*old(rt)),
        pending_qr(*final(rt)) is None,
{
    rt.qr_ready = false;
    rt.qr_result = None;
}

/// Start-up initialisation of the QR hand-off: clears it only when no
/// result is pending, so a result that survived a restart is kept.
pub fn init_qr_channel(rt: &mut CameraRuntime)
    ensures
        *final(rt) == (if old(rt).qr_ready { *old(rt) } else { without_qr(*old(rt)) }),
        pending_qr(*final(rt)) == pending_qr(*old(rt)),
{
    if !rt.qr_ready {
        clear_qr_result(rt);
    }
}

/// Same as `peek_qr_result`.
pub fn poll_qr_result(rt: &mut CameraRuntime) -> (res: Option<String>)
    ensures
        res matches Some(s) ==> Some(s@) == pending_qr(*old(rt)),
        res is None ==> pending_qr(*old(rt)) is None,
        *final(rt) == after_peek(*old(rt)),
{
    peek_qr_result(rt)
}

/// The stored screen size, narrow side first.
pub fn get_screen_size(rt: &CameraRuntime) -> (size: (u32, u32))
    ensures
        size == (rt.screen_w, rt.screen_h),
{
    (rt.screen_w, rt.screen_h)
}

/// Records a window size reported by the platform. A size with a zero side
/// is ignored; otherwise the narrow side is stored as the width. Returns
/// whether the size was stored.
pub fn store_screen_size_from_app(rt: &mut CameraRuntime, w: u32, h: u32) -> (stored: bool)
    ensures
        stored == (w > 0 && h > 0),
        stored ==> *final(rt) == (CameraRuntime { 
            screen_w: if w < h { w } else { h },
            screen_h: if w < h { h } else { w },
            ..*old(rt)
        }),
        !stored ==> *final(rt) == *old(rt),
{
    if w > 0 && h > 0 {
        if w < h {
            rt.screen_w = w;
            rt.screen_h = h;
        } else {
            rt.screen_w = h;
            rt.screen_h = w;
        }
        true
    } else {
        false
    }
}

/// The shared preview frame buffer.
pub fn frame_buf(rt: &CameraRuntime) -> (frame: &Option<CameraFrame>)
    ensures
        *frame == rt.frame,
{
    &rt.frame
}

/// The generation counter of the preview frame buffer.
pub fn frame_gen(rt: &CameraRuntime) -> (gen: u64)
    ensures
        gen == rt.frame_gen,
{
    rt.frame_gen
}

/// The successor of a generation counter, wrapping at `u64::MAX`.
pub open spec fn next_gen(gen: u64) -> u64 {
    if gen == u64::MAX { 0 } else { (gen + 1) as u64 }
}

/// Wrapping increment of a generation counter.
pub fn bump_gen(gen: u64) -> (next: u64)
    ensures
        next == next_gen(gen),
{
    if gen == u64::MAX { 0 } else { gen + 1 }
}

/// Publishes a new preview frame and advances the generation counter.
pub fn publish_preview_frame(rt: &mut CameraRuntime, frame: CameraFrame)
    ensures
        *final(rt) == (CameraRuntime { frame: Some(frame), frame_gen: next_gen(old(rt).frame_gen), ..*old(rt) }),
{
    rt.frame = Some(frame);
    rt.frame_gen = bump_gen(rt.frame_gen);
}


/// The runtime after the preview is hidden.
pub open spec fn after_hide(rt: CameraRuntime) -> CameraRuntime {
    CameraRuntime { stop_requested: true, frame: None, frame_gen: next_gen(rt.frame_gen), ..rt }
}

/// The runtime after the QR hand-off is cleared or consumed.
pub open spec fn without_qr(rt: CameraRuntime) -> CameraRuntime {
    CameraRuntime { qr_ready: false, qr_result: None, ..rt }
}

/// The runtime after `peek_qr_result`.
pub open spec fn after_peek(rt: CameraRuntime) -> CameraRuntime {
    CameraRuntime { qr_ready: rt.qr_ready && rt.qr_result is Some, ..rt }
}

/// Stops the preview: asks the camera thread to stop, drops the shown
/// frame and advances the generation so the widget repaints.
pub fn hide_overlay(rt: &mut CameraRuntime)
    ensures
        *final(rt) == after_hide(*old(rt)),
{
    rt.stop_requested = true;
    rt.frame = None;
    rt.frame_gen = bump_gen(rt.frame_gen);
}

/// Shows the preview. The preview adapts to the orientation by itself, so
/// nothing changes.
pub fn show_overlay(rt: &mut CameraRuntime)
    ensures
        *final(rt) == *old(rt),
{
}

/// Entering the scan screen: see `show_overlay`.
pub fn show_camera_overlay(rt: &mut CameraRuntime)
    ensures
        *final(rt) == *old(rt),
{
    show_overlay(rt);
}

/// Leaving the scan screen: see `hide_overlay`.
pub fn hide_camera_overlay(rt: &mut CameraRuntime)
    ensures
        *final(rt) == after_hide(*old(rt)),
{
    hide_overlay(rt);
}

/// The runtime after `reset_runtime_state`.
pub open spec fn reset_runtime(rt: CameraRuntime) -> CameraRuntime {
    CameraRuntime {
        stop_requested: true,
        dev_disconnected: false,
        dev_error: false,
        qr_found_exit: false,
        permission_pending: false,
        permission_watchdog_running: false,
        frame: None,
        frame_gen: next_gen(rt.frame_gen),
        camera_running: false,
        ..rt
    }
}

/// After a rendering failure: stops the camera, forgets device errors, the
/// QR exit flag and any permission request in flight, drops the frame.
/// A pending QR result is kept.
pub fn reset_runtime_state(rt: &mut CameraRuntime)
    ensures
        *final(rt) == reset_runtime(*old(rt)),
{
    rt.stop_requested = true;
    rt.dev_disconnected = false;
    rt.dev_error = false;
    rt.qr_found_exit = false;
    rt.permission_pending = false;
    rt.permission_watchdog_running = false;
    rt.frame = None;
    rt.frame_gen = bump_gen(rt.frame_gen);
    rt.camera_running = false;
}

/// Takes the request to show the permission-settings popup: returns whether
/// it was set and clears it.
pub fn take_permission_settings_popup_request(rt: &mut CameraRuntime) -> (requested: bool)
    ensures
        requested == old(rt).show_permission_settings_popup,
        *final(rt) == (CameraRuntime { show_permission_settings_popup: false, ..*old(rt) }),
{
    let requested = rt.show_permission_settings_popup;
    rt.show_permission_settings_popup = false;
    requested
}

/// What the platform reports about the camera permission at one moment.
#[derive(Clone, Copy, Debug, PartialEq, Eq, Structural)]
pub struct PermissionProbe {
    /// The permission is granted.
    pub granted: bool,
    /// `shouldShowRequestPermissionRationale`, where it could be read.
    pub rationale: Option<bool>,
    /// The activity has the window focus again.
    pub focus_back: bool,
    /// Wall-clock milliseconds.
    pub now_ms: u64,
}

/// How long ago the permission was requested.
pub open spec fn permission_age(rt: CameraRuntime, now_ms: u64) -> int {
    if now_ms >= rt.permission_requested_at_ms { now_ms - rt.permission_requested_at_ms } else { 0 }
}

/// Whether a pending permission request is to be treated as denied: the
/// permission is still missing and either the system says the user may be
/// asked again (after 350 ms), or 1200 ms have passed and the focus is back,
/// or 4000 ms have passed.
pub open spec fn permission_denied_now(rt: CameraRuntime, probe: PermissionProbe) -> bool {
    let age = permission_age(rt, probe.now_ms);
    &&& rt.permission_pending
    &&& !probe.granted
    &&& rt.permission_requested_at_ms != 0
    &&& ((probe.rationale == Some(true) && age >= 350) || (age >= 1200 && (probe.focus_back || age >= 4000)))
}

/// Decides whether a pending camera-permission request was denied; if so,
/// ends the request and asks for the permission-settings popup. Returns
/// whether it did.
pub fn maybe_flag_permission_denied(rt: &mut CameraRuntime, probe: PermissionProbe) -> (raised: bool)
    ensures
        raised == permission_denied_now(*old(rt), probe),
        raised ==> *final(rt) == (CameraRuntime { permission_pending: false, show_permission_settings_popup: true, ..*old(rt) }),
        !raised ==> *final(rt) == *old(rt),
{
    if !rt.permission_pending {
        return false;
    }
    if probe.granted {
        return false;
    }
    let requested_at = rt.permission_requested_at_ms;
    if requested_at == 0 {
        return false;
    }
    let age_ms = probe.now_ms.saturating_sub(requested_at);
    let fast = match probe.rationale {
        Some(r) => r && age_ms >= 350,
        None => false,
    };
    if !fast {
        if age_ms < 1200 {
            return false;
        }
        if !probe.focus_back && age_ms < 4000 {
            return false;
        }
    }
    rt.permission_pending = false;
    rt.show_permission_settings_popup = true;
    true
}

/// How the permission state reads, for the log.
#[derive(Clone, Copy, Debug, PartialEq, Eq, Structural)]
pub enum PermissionVerdict {
    Granted,
    DeniedCanAskAgain,
    NotRequestedYet,
    DeniedDontAskAgainOrFirstDecision,
    DeniedRationaleUnknown,
}

/// Classifies the permission state from what the platform reports.
pub fn permission_verdict(granted: bool, rationale: Option<bool>, requested_at_ms: u64) -> (v: PermissionVerdict)
    ensures
        granted ==> v == PermissionVerdict::Granted,
        !granted && rationale == Some(true) ==> v == PermissionVerdict::DeniedCanAskAgain,
        !granted && rationale == Some(false) && requested_at_ms == 0 ==> v == PermissionVerdict::NotRequestedYet,
        !granted && rationale == Some(false) && requested_at_ms != 0 ==> v
            == PermissionVerdict::DeniedDontAskAgainOrFirstDecision,
        !granted && rationale is None ==> v == PermissionVerdict::DeniedRationaleUnknown,
{
    if granted {
        PermissionVerdict::Granted
    } else {
        match rationale {
            Some(true) => PermissionVerdict::DeniedCanAskAgain,
            Some(false) => {
                if requested_at_ms == 0 {
                    PermissionVerdict::NotRequestedYet
                } else {
                    PermissionVerdict::DeniedDontAskAgainOrFirstDecision
                }
            },
            None => PermissionVerdict::DeniedRationaleUnknown,
        }
    }
}

/// Marks the permission watchdog as running; returns `false` when one runs
/// already (then no second one is to be started).
pub fn start_permission_watchdog(rt: &mut CameraRuntime) -> (start: bool)
    ensures
        start == !old(rt).permission_watchdog_running,
        *final(rt) == (CameraRuntime { permission_watchdog_running: true, ..*old(rt) }),
{
    if rt.permission_watchdog_running {
        return false;
    }
    rt.permission_watchdog_running = true;
    true
}

/// One round of the permission watchdog. Returns `true` while it is to keep
/// watching: the request is still pending, was not found denied, and the
/// permission is not granted.
pub fn permission_watchdog_tick(rt: &mut CameraRuntime, probe: PermissionProbe) -> (keep_going: bool)
    ensures
        keep_going == (old(rt).permission_pending && !permission_denied_now(*old(rt), probe) && !probe.granted),
        permission_denied_now(*old(rt), probe) ==> *final(rt) == (CameraRuntime { 
            permission_pending: false,
            show_permission_settings_popup: true,
            ..*old(rt)
        }),
        !permission_denied_now(*old(rt), probe) ==> *final(rt) == *old(rt),
{
    if !rt.permission_pending {
        return false;
    }
    maybe_flag_permission_denied(rt, probe);
    if !rt.permission_pending {
        return false;
    }
    if probe.granted {
        return false;
    }
    true
}

/// The permission watchdog has ended.
pub fn permission_watchdog_finished(rt: &mut CameraRuntime)
    ensures
        *final(rt) == (CameraRuntime { permission_watchdog_running: false, ..*old(rt) }),
{
    rt.permission_watchdog_running = false;
}

/// A permission request was sent at `now_ms`.
pub fn note_permission_requested(rt: &mut CameraRuntime, now_ms: u64)
    ensures
        *final(rt) == (CameraRuntime { permission_requested_at_ms: now_ms, permission_pending: true, ..*old(rt) }),
{
    rt.permission_requested_at_ms = now_ms;
    rt.permission_pending = true;
}

/// Prepares a camera session: clears the stop and error flags and claims
/// the camera. Returns `false` when a session is running already.
pub fn start_camera_thread(rt: &mut CameraRuntime) -> (spawn: bool)
    ensures
        spawn == !old(rt).camera_running,
        *final(rt) == (CameraRuntime { 
            stop_requested: false,
            dev_disconnected: false,
            dev_error: false,
            qr_found_exit: false,
            camera_running: true,
            ..*old(rt)
        }),
{
    rt.stop_requested = false;
    rt.dev_disconnected = false;
    rt.dev_error = false;
    rt.qr_found_exit = false;
    if rt.camera_running {
        return false;
    }
    rt.camera_running = true;
    true
}

/// How a camera start request went.
#[derive(Clone, Copy, Debug, PartialEq, Eq, Structural)]
pub enum CameraStart {
    /// A new camera thread is to be spawned.
    Spawn,
    /// The previous session is still shutting down: retry shortly.
    RetryLater,
}

/// Starts the camera, or asks for a retry while the previous session is
/// still running.
pub fn start_camera_thread_or_retry(rt: &mut CameraRuntime) -> (start: CameraStart)
    ensures
        old(rt).camera_running ==> start == CameraStart::RetryLater && *final(rt) == *old(rt),
        !old(rt).camera_running ==> start == CameraStart::Spawn && *final(rt) == (CameraRuntime { 
            stop_requested: false,
            dev_disconnected: false,
            dev_error: false,
            qr_found_exit: false,
            camera_running: true,
            ..*old(rt)
        }),
{
    if rt.camera_running {
        return CameraStart::RetryLater;
    }
    start_camera_thread(rt);
    CameraStart::Spawn
}

/// The camera thread has ended: the camera is free again, and unless the
/// session ended on a found QR code the shown frame is dropped.
pub fn camera_thread_exited(rt: &mut CameraRuntime)
    ensures
        *final(rt) == (CameraRuntime { 
            camera_running: false,
            frame: if old(rt).qr_found_exit { old(rt).frame } else { None },
            ..*old(rt)
        }),
{
    rt.camera_running = false;
    if !rt.qr_found_exit {
        rt.frame = None;
    }
}

/// Whether the capture loop is to end: a stop was asked for, or the device
/// was lost or failed.
pub fn camera_should_stop(rt: &CameraRuntime) -> (stop: bool)
    ensures
        stop == (rt.stop_requested || rt.dev_disconnected || rt.dev_error),
{
    rt.stop_requested || rt.dev_disconnected || rt.dev_error
}

/// The camera device was disconnected.
pub fn mark_device_disconnected(rt: &mut CameraRuntime)
    ensures
        *final(rt) == (CameraRuntime { dev_disconnected: true, ..*old(rt) }),
{
    rt.dev_disconnected = true;
}

/// The camera device reported an error.
pub fn mark_device_error(rt: &mut CameraRuntime)
    ensures
        *final(rt) == (CameraRuntime { dev_error: true, ..*old(rt) }),
{
    rt.dev_error = true;
}

/// Every how many frames one is handed to the QR decoder.
pub const QR_EVERY: u64 = 4;

/// Every how many frames the preview is refreshed.
pub const PREVIEW_EVERY: u64 = 2;

/// For the `total`-th frame of a session (counting from 1): whether it goes
/// to the QR decoder, and whether it refreshes the preview (the first frame
/// always does).
pub fn frame_work(total: u64) -> (work: (bool, bool))
    ensures
        work.0 == (total % QR_EVERY == 0),
        work.1 == (total == 1 || total % PREVIEW_EVERY == 0),
{
    (total % QR_EVERY == 0, total == 1 || total % PREVIEW_EVERY == 0)
}

/// The QR decoder found `text`: the session ends on it, a permission
/// request in flight is dropped, and the text is stored for the UI.
pub fn on_qr_decoded(rt: &mut CameraRuntime, text: String)
    ensures
        *final(rt) == (CameraRuntime { 
            qr_found_exit: true,
            stop_requested: true,
            permission_pending: false,
            qr_ready: true,
            qr_result: Some(text),
            ..*old(rt)
        }),
        pending_qr(*final(rt)) == Some(text@),
{
    rt.qr_found_exit = true;
    rt.stop_requested = true;
    rt.permission_pending = false;
    store_qr_result(rt, text);
}

/// A camera of the device: its id and, where its characteristics could be
/// read, the lens facing.
pub struct CameraCandidate {
    pub id: String,
    pub lens_facing: Option<u8>,
}

/// The lens-facing value of a back camera.
pub const LENS_FACING_BACK: u8 = 1;

/// The index of the first back-facing camera at or after `i`.
pub open spec fn first_back_from(cands: Seq<CameraCandidate>, i: int) -> Option<int>
    decreases cands.len() - i,
{
    if i < 0 || i >= cands.len() {
        None
    } else if cands[i].lens_facing == Some(LENS_FACING_BACK) {
        Some(i)
    } else {
        first_back_from(cands, i + 1)
    }
}

/// The id of the camera to open: the first back-facing one, else the first
/// one.
pub open spec fn chosen_camera(cands: Seq<CameraCandidate>) -> Option<Seq<char>> {
    match first_back_from(cands, 0) {
        Some(i) => Some(cands[i].id@),
        None => if cands.len() > 0 {
            Some(cands[0].id@)
        } else {
            None
        },
    }
}

/// Picks the camera to open: the first back-facing one, else the first one,
/// else none.
pub fn pick_back_camera(cands: &Vec<CameraCandidate>) -> (id: Option<String>)
    ensures
        match id {
            Some(s) => chosen_camera(cands@) == Some(s@),
            None => chosen_camera(cands@) is None,
        },
{
    let mut i: usize = 0;
    while i < cands.len()
        invariant
            i <= cands.len(),
            first_back_from(cands@, 0) == first_back_from(cands@, i as int),
        decreases cands.len() - i,
    {
        let is_back = match cands[i].lens_facing {
            Some(f) => f == LENS_FACING_BACK,
            None => false,
        };
        if is_back {
            return Some(cands[i].id.clone());
        }
        i = i + 1;
    }
    if cands.len() == 0 {
        None
    } else {
        Some(cands[0].id.clone())
    }
}


/// The runtime after a camera session is claimed.
pub open spec fn camera_started(rt: CameraRuntime) -> CameraRuntime {
    CameraRuntime {
        stop_requested: false,
        dev_disconnected: false,
        dev_error: false,
        qr_found_exit: false,
        camera_running: true,
        ..rt
    }
}

/// What a permission check on the info screen did.
#[derive(Clone, Copy, Debug, PartialEq, Eq, Structural)]
pub enum PermissionStep {
    /// Nothing to check: not on the info screen, a QR result is waiting, or
    /// no request is pending.
    Idle,
    /// Still no permission, and not yet taken as denied.
    Waiting,
    /// Taken as denied: the settings popup is asked for.
    Denied,
    /// Granted while a camera session still runs: the request is closed.
    CameraBusy,
    /// Granted: the scan screen is shown and the camera start decided.
    ScanStarted(CameraStart),
    /// Granted: the scan screen is shown; the camera is to be started a
    /// little later.
    ScanStartDeferred,
}

/// The common part of `poll_permission` and `on_resumed`.
pub open spec fn permission_check<P, S>(
    state: AppState<P, S>,
    rt: CameraRuntime,
    probe: PermissionProbe,
    deferred: bool,
    new_state: AppState<P, S>,
    new_rt: CameraRuntime,
    step: PermissionStep,
) -> bool {
    if state.screen != Screen::Info || rt.qr_ready || !rt.permission_pending {
        step == PermissionStep::Idle && new_state == state && new_rt == rt
    } else if !probe.granted {
        &&& new_state == state
        &&& step == (if permission_denied_now(rt, probe) { PermissionStep::Denied } else { PermissionStep::Waiting })
        &&& new_rt == (if permission_denied_now(rt, probe) {
            CameraRuntime { permission_pending: false, show_permission_settings_popup: true, ..rt }
        } else {
            rt
        })
    } else if rt.camera_running {
        step == PermissionStep::CameraBusy && new_state == state && new_rt == (CameraRuntime {
            permission_pending: false,
            ..rt
        })
    } else {
        let rt1 = without_qr(CameraRuntime { permission_pending: false, ..rt });
        &&& new_state == with_screen(AppState { show_permission_error: false, ..state }, Screen::Scan)
        &&& deferred ==> step == PermissionStep::ScanStartDeferred && new_rt == rt1
        &&& !deferred ==> step == PermissionStep::ScanStarted(CameraStart::Spawn) && new_rt == camera_started(rt1)
    }
}

/// The camera permission was granted while a request was pending: close the
/// request, drop any stale QR result and show the scan screen.
fn permission_granted_go_scan<P, S>(state: &mut AppState<P, S>, rt: &mut CameraRuntime)
    requires
        !old(rt).qr_ready,
    ensures
        *final(state) == with_screen(AppState { show_permission_error: false, ..*old(state) }, Screen::Scan),
        *final(rt) == without_qr(CameraRuntime { permission_pending: false, ..*old(rt) }),
{
    rt.permission_pending = false;
    state.show_permission_error = false;
    if !qr_result_ready(rt) {
        clear_qr_result(rt);
    }
    state.set_screen(Screen::Scan, rt);
}

/// Checks a pending camera-permission request on the info screen, once per
/// frame: starts the scan when it was granted, flags a denial.
pub fn poll_permission<P, S>(state: &mut AppState<P, S>, rt: &mut CameraRuntime, probe: PermissionProbe) -> (step: PermissionStep)
    ensures
        permission_check(*old(state), *old(rt), probe, false, *final(state), *final(rt), step),
{
    if state.screen != Screen::Info {
        return PermissionStep::Idle;
    }
    if qr_result_ready(rt) {
        return PermissionStep::Idle;
    }
    if !rt.permission_pending {
        return PermissionStep::Idle;
    }
    if !probe.granted {
        if maybe_flag_permission_denied(rt, probe) {
            return PermissionStep::Denied;
        }
        return PermissionStep::Waiting;
    }
    if rt.camera_running {
        rt.permission_pending = false;
        return PermissionStep::CameraBusy;
    }
    permission_granted_go_scan(state, rt);
    let start = start_camera_thread_or_retry(rt);
    PermissionStep::ScanStarted(start)
}

/// Same check as `poll_permission` when the activity resumes; the camera
/// start is left for a moment later.
pub fn on_resumed<P, S>(state: &mut AppState<P, S>, rt: &mut CameraRuntime, probe: PermissionProbe) -> (step: PermissionStep)
    ensures
        permission_check(*old(state), *old(rt), probe, true, *final(state), *final(rt), step),
{
    if state.screen != Screen::Info {
        return PermissionStep::Idle;
    }
    if qr_result_ready(rt) {
        return PermissionStep::Idle;
    }
    if !rt.permission_pending {
        return PermissionStep::Idle;
    }
    if !probe.granted {
        if maybe_flag_permission_denied(rt, probe) {
            return PermissionStep::Denied;
        }
        return PermissionStep::Waiting;
    }
    if rt.camera_running {
        rt.permission_pending = false;
        return PermissionStep::CameraBusy;
    }
    permission_granted_go_scan(state, rt);
    PermissionStep::ScanStartDeferred
}

/// See `poll_permission`.
pub fn poll_permission_granted<P, S>(state: &mut AppState<P, S>, rt: &mut CameraRuntime, probe: PermissionProbe) -> (step: PermissionStep)
    ensures
        permission_check(*old(state), *old(rt), probe, false, *final(state), *final(rt), step),
{
    poll_permission(state, rt, probe)
}

/// See `on_resumed`.
pub fn on_android_resumed<P, S>(state: &mut AppState<P, S>, rt: &mut CameraRuntime, probe: PermissionProbe) -> (step: PermissionStep)
    ensures
        permission_check(*old(state), *old(rt), probe, true, *final(state), *final(rt), step),
{
    on_resumed(state, rt, probe)
}

/// What a press of a scan button did.
#[derive(Clone, Copy, Debug, PartialEq, Eq, Structural)]
pub enum ScanButtonStep {
    /// A popup or a permission request is under way: nothing happens.
    Ignored,
    /// The permission is there: the scan screen is shown and the camera
    /// start decided.
    ScanStarted(CameraStart),
    /// The permission was requested; `true` when the watchdog is to be
    /// started.
    PermissionRequested(bool),
}

/// What pressing a scan button does to the state and the runtime.
pub open spec fn scan_button_effect<P, S>(
    state: AppState<P, S>,
    rt: CameraRuntime,
    granted: bool,
    now_ms: u64,
    new_state: AppState<P, S>,
    new_rt: CameraRuntime,
    step: ScanButtonStep,
) -> bool {
    if state.show_permission_popup || rt.permission_pending || rt.show_permission_settings_popup {
        step == ScanButtonStep::Ignored && new_state == state && new_rt == rt
    } else if granted {
        let rt1 = if rt.qr_ready { rt } else { without_qr(rt) };
        &&& new_state == with_screen(AppState { show_permission_error: false, ..state }, Screen::Scan)
        &&& rt1.camera_running ==> step == ScanButtonStep::ScanStarted(CameraStart::RetryLater) && new_rt == rt1
        &&& !rt1.camera_running ==> step == ScanButtonStep::ScanStarted(CameraStart::Spawn) && new_rt == camera_started(rt1)
    } else {
        &&& new_state == (AppState { show_permission_error: false, ..state })
        &&& step == ScanButtonStep::PermissionRequested(!rt.permission_watchdog_running)
        &&& new_rt == (CameraRuntime {
            permission_pending: true,
            permission_requested_at_ms: now_ms,
            permission_watchdog_running: true,
            ..rt
        })
    }
}

/// A scan button: with the camera permission, shows the scan screen and
/// starts the camera; without it, records a permission request.
pub fn scan_button<P, S>(state: &mut AppState<P, S>, rt: &mut CameraRuntime, granted: bool, now_ms: u64) -> (step: ScanButtonStep)
    ensures
        scan_button_effect(*old(state), *old(rt), granted, now_ms, *final(state), *final(rt), step),
{
    if state.show_permission_popup {
        return ScanButtonStep::Ignored;
    }
    if rt.permission_pending {
        return ScanButtonStep::Ignored;
    }
    if rt.show_permission_settings_popup {
        return ScanButtonStep::Ignored;
    }
    if granted {
        state.show_permission_error = false;
        if !qr_result_ready(rt) {
            clear_qr_result(rt);
        }
        state.set_screen(Screen::Scan, rt);
        let start = start_camera_thread_or_retry(rt);
        return ScanButtonStep::ScanStarted(start);
    }
    note_permission_requested(rt, now_ms);
    let watchdog = start_permission_watchdog(rt);
    state.show_permission_error = false;
    ScanButtonStep::PermissionRequested(watchdog)
}

/// See `scan_button`.
pub fn handle_scan_button<P, S>(state: &mut AppState<P, S>, rt: &mut CameraRuntime, granted: bool, now_ms: u64) -> (step: ScanButtonStep)
    ensures
        scan_button_effect(*old(state), *old(rt), granted, now_ms, *final(state), *final(rt), step),
{
    scan_button(state, rt, granted, now_ms)
}


/// The frame counter of a capture session.
pub struct CaptureLoop {
    /// Frames with a valid size seen so far.
    pub total: u64,
}

impl CaptureLoop {
    /// A session that has seen no frame.
    pub fn new() -> (l: CaptureLoop)
        ensures
            l.total == 0,
    {
        CaptureLoop { total: 0 }
    }

    /// A frame of `width` x `height` arrived. A frame without a positive
    /// size is skipped (`None`); otherwise it is counted and the work it gets
    /// is returned: whether it goes to the QR decoder and whether it
    /// refreshes the preview.
    pub fn next_frame(&mut self, width: i32, height: i32) -> (work: Option<(bool, bool)>)
        requires
            old(self).total < u64::MAX,
        ensures
            width <= 0 || height <= 0 ==> work is None && final(self).total == old(self).total,
            width > 0 && height > 0 ==> final(self).total == old(self).total + 1 && work == Some(
                (final(self).total % QR_EVERY == 0, final(self).total == 1 || final(self).total % PREVIEW_EVERY == 0),
            ),
    {
        if width <= 0 || height <= 0 {
            return None;
        }
        self.total = self.total + 1;
        Some(frame_work(self.total))
    }
}

} // verus!
