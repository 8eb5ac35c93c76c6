//! Properties of the library that span several operations: the QR hand-off,
//! the screen flow, the permission guards, the signature pad and the lines
//! drawn on the signature image.

use vstd::prelude::*;
use crate::qr_decode::{decoded_qr, first_text, qr_grid_texts, quarter_turn};
use crate::frame_convert::{Plane, clamp_byte, effective_stride, luma_bytes_needed, preview_pixel};
use crate::app_state::{
    AppState, Orientation, ScanMode, Screen, accept_effect, cancel_pad_effect, commit_effect, draw_effect,
    edit_effect, finish_effect, opt_str, screen_after_scan, startup_effect, system_back_effect,
};
use crate::camera::{
    CameraFrame, CameraRuntime, PermissionProbe, ScanButtonStep, after_hide, after_peek, camera_started,
    next_gen, pending_qr, permission_denied_now, reset_runtime, scan_button_effect, without_qr,
};
use crate::raster::{
    INK, PAPER, Rgba8, abs_int, blank_canvas, line_err, line_offsets, line_points, paint_points,
    paint_segments, paint_stroke, paint_strokes, signature_pixels, step_sign,
};
use crate::signature_pad::{PadPointerEvent, SignaturePadState, SignaturePadWidget, has_points, pointer_effect};

verus! {

/// The runtime after `store_qr_result(s)`.
pub open spec fn with_stored_qr(rt: CameraRuntime, s: String) -> CameraRuntime {
    CameraRuntime { qr_ready: true, qr_result: Some(s), ..rt }
}

/// A stored QR result is what a peek returns, and peeking leaves it in
/// place, however often it is repeated.
pub proof fn law_peek_keeps_stored_result(rt: CameraRuntime, s: String)
    ensures
        pending_qr(with_stored_qr(rt, s)) == Some(s@),
        after_peek(with_stored_qr(rt, s)) == with_stored_qr(rt, s),
{
}

/// After a consume (or clear) nothing is pending, and a later store is seen
/// again.
pub proof fn law_consume_then_store(rt: CameraRuntime, s: String)
    ensures
        pending_qr(without_qr(rt)) is None,
        pending_qr(with_stored_qr(without_qr(rt), s)) == Some(s@),
{
}

/// Crash recovery: a QR result stored before a restart brings the new UI
/// state straight to the success screen with that result, and it is still
/// pending in the runtime.
pub proof fn law_restart_resumes_with_stored_qr<P, S>(
    rt: CameraRuntime,
    s: String,
    canvas: S,
    st: AppState<P, S>,
    new_rt: CameraRuntime,
)
    requires
        startup_effect(with_stored_qr(rt, s), canvas, st, new_rt),
    ensures
        st.screen == Screen::Success,
        opt_str(st.qr_result) == Some(s@),
        pending_qr(new_rt) == Some(s@),
{
}

/// A restart without a stored result starts on the launch screen.
pub proof fn law_restart_without_qr_starts_at_launch<P, S>(
    rt: CameraRuntime,
    canvas: S,
    st: AppState<P, S>,
    new_rt: CameraRuntime,
)
    requires
        !rt.qr_ready,
        startup_effect(rt, canvas, st, new_rt),
    ensures
        st.screen == Screen::Launch,
        st.qr_result is None,
        !new_rt.show_permission_settings_popup,
{
}

/// A QR result stored while the scan screen is up is committed exactly
/// once: the UI moves to the screen the scan was for, holding that result,
/// the preview stops, and nothing stays pending.
pub proof fn law_scan_commits_stored_result<P, S>(
    state: AppState<P, S>,
    rt: CameraRuntime,
    s: String,
    new_state: AppState<P, S>,
    new_rt: CameraRuntime,
    c: bool,
)
    requires
        state.screen == Screen::Scan,
        state.qr_result is None,
        commit_effect(state, with_stored_qr(rt, s), new_state, new_rt, c),
    ensures
        c,
        new_state.screen == screen_after_scan(state.scan_mode),
        opt_str(new_state.qr_result) == Some(s@),
        !new_state.qr_pending,
        !new_state.is_scanning,
        pending_qr(new_rt) is None,
        new_rt.stop_requested,
        new_rt.frame is None,
{
}

/// Backing out of a scan drops any result and returns to where the scan
/// was started: the info screen for an activation, the success screen for
/// a signature capture.
pub proof fn law_back_from_scan<P, S>(
    state: AppState<P, S>,
    rt: CameraRuntime,
    new_state: AppState<P, S>,
    new_rt: CameraRuntime,
    o: Option<Orientation>,
)
    requires
        state.screen == Screen::Scan,
        !state.show_permission_popup,
        system_back_effect(state, rt, new_state, new_rt, o),
    ensures
        new_state.screen == (if state.scan_mode == ScanMode::Activation { Screen::Info } else { Screen::Success }),
        new_state.qr_result is None,
        pending_qr(new_rt) is None,
        !new_state.is_scanning,
{
}

/// The scanning flag follows the screen: if it is set exactly on the scan
/// screen before the back action or a scan commit, it is afterwards too.
pub proof fn law_scanning_flag_follows_screen<P, S>(
    state: AppState<P, S>,
    rt: CameraRuntime,
    back_state: AppState<P, S>,
    back_rt: CameraRuntime,
    o: Option<Orientation>,
    commit_state: AppState<P, S>,
    commit_rt: CameraRuntime,
    c: bool,
)
    requires
        state.is_scanning == (state.screen == Screen::Scan),
        system_back_effect(state, rt, back_state, back_rt, o),
        commit_effect(state, rt, commit_state, commit_rt, c),
    ensures
        back_state.is_scanning == (back_state.screen == Screen::Scan),
        commit_state.is_scanning == (commit_state.screen == Screen::Scan),
{
}

/// Back on the preview does what its Edit button does.
pub proof fn law_back_on_preview_is_edit<P, S>(
    state: AppState<P, S>,
    rt: CameraRuntime,
    new_state: AppState<P, S>,
    new_rt: CameraRuntime,
    o: Option<Orientation>,
)
    requires
        state.screen == Screen::SignaturePreview,
        !state.show_permission_popup,
        system_back_effect(state, rt, new_state, new_rt, o),
    ensures
        o == Some(Orientation::Landscape),
        edit_effect(state, rt, new_state, new_rt, Orientation::Landscape),
{
}

/// Back on the saved screen does what its Finish button does.
pub proof fn law_back_on_saved_is_finish<P, S>(
    state: AppState<P, S>,
    rt: CameraRuntime,
    new_state: AppState<P, S>,
    new_rt: CameraRuntime,
    o: Option<Orientation>,
)
    requires
        state.screen == Screen::SignatureSaved,
        !state.show_permission_popup,
        system_back_effect(state, rt, new_state, new_rt, o),
    ensures
        finish_effect(state, rt, new_state, new_rt, o),
{
}

/// Back from the preview to the pad and back again returns to the preview
/// with the strokes untouched.
pub proof fn law_back_twice_from_preview_keeps_signature<P, S>(
    s0: AppState<P, S>,
    rt0: CameraRuntime,
    s1: AppState<P, S>,
    rt1: CameraRuntime,
    o1: Option<Orientation>,
    s2: AppState<P, S>,
    rt2: CameraRuntime,
    o2: Option<Orientation>,
)
    requires
        s0.screen == Screen::SignaturePreview,
        !s0.show_permission_popup,
        system_back_effect(s0, rt0, s1, rt1, o1),
        system_back_effect(s1, rt1, s2, rt2, o2),
    ensures
        s1.screen == Screen::SignaturePad,
        s2.screen == Screen::SignaturePreview,
        s2.signature_pad.strokes == s0.signature_pad.strokes,
        !s2.signature_pad_from_preview,
        o2 == Some(Orientation::Portrait),
{
}

/// Edit from the preview followed by Cancel on the pad returns to the
/// preview, with the strokes discarded.
pub proof fn law_edit_then_cancel_returns_to_preview<P, S>(
    s0: AppState<P, S>,
    rt0: CameraRuntime,
    s1: AppState<P, S>,
    rt1: CameraRuntime,
    o1: Orientation,
    s2: AppState<P, S>,
    rt2: CameraRuntime,
    o2: Orientation,
)
    requires
        edit_effect(s0, rt0, s1, rt1, o1),
        cancel_pad_effect(s1, rt1, s2, rt2, o2),
    ensures
        s2.screen == Screen::SignaturePreview,
        !s2.signature_pad_from_preview,
        s2.signature_pad.strokes@.len() == 0,
        o1 == Orientation::Landscape,
        o2 == Orientation::Portrait,
{
}

/// Accept on a freshly opened pad does nothing: a signature needs strokes.
pub proof fn law_accept_needs_strokes<P, S>(
    s0: AppState<P, S>,
    rt0: CameraRuntime,
    s1: AppState<P, S>,
    rt1: CameraRuntime,
    o1: Orientation,
    s2: AppState<P, S>,
    rt2: CameraRuntime,
    o2: Option<Orientation>,
)
    requires
        draw_effect(s0, rt0, s1, rt1, o1),
        accept_effect(s1, rt1, s2, rt2, o2),
    ensures
        s2 == s1,
        rt2 == rt1,
        o2 is None,
        s1.screen == Screen::SignaturePad,
{
    assert(!has_points(s1.signature_pad.stroke_view()));
}

/// A pending permission request raises the settings popup at most once.
pub proof fn law_denial_flagged_once(rt: CameraRuntime, p1: PermissionProbe, p2: PermissionProbe)
    requires
        permission_denied_now(rt, p1),
    ensures
        !permission_denied_now(
            CameraRuntime { permission_pending: false, show_permission_settings_popup: true, ..rt },
            p2,
        ),
{
}

/// Pressing a scan button again while the first press still waits for the
/// permission answer does nothing.
pub proof fn law_no_duplicate_permission_prompt<P, S>(
    s0: AppState<P, S>,
    rt0: CameraRuntime,
    t0: u64,
    s1: AppState<P, S>,
    rt1: CameraRuntime,
    step1: ScanButtonStep,
    granted: bool,
    t1: u64,
    s2: AppState<P, S>,
    rt2: CameraRuntime,
    step2: ScanButtonStep,
)
    requires
        !s0.show_permission_popup,
        !rt0.permission_pending,
        !rt0.show_permission_settings_popup,
        scan_button_effect(s0, rt0, false, t0, s1, rt1, step1),
        scan_button_effect(s1, rt1, granted, t1, s2, rt2, step2),
    ensures
        step1 is PermissionRequested,
        step2 == ScanButtonStep::Ignored,
        s2 == s1,
        rt2 == rt1,
{
}

/// Only one camera session runs at a time: once a session is claimed, a
/// second start finds the camera busy.
pub proof fn law_single_camera_session(rt: CameraRuntime)
    ensures
        camera_started(rt).camera_running,
        camera_started(camera_started(rt)) == camera_started(rt),
{
}

/// A press followed by a release on a pad that accepts drawing adds one
/// stroke made of the two points.
pub proof fn law_press_release_draws_segment<M, P, S>(
    w0: SignaturePadWidget<M>,
    pad0: SignaturePadState<P, S>,
    p: P,
    q: P,
    r1: crate::signature_pad::PointerResponse,
    w1: SignaturePadWidget<M>,
    pad1: SignaturePadState<P, S>,
    r2: crate::signature_pad::PointerResponse,
    w2: SignaturePadWidget<M>,
    pad2: SignaturePadState<P, S>,
)
    requires
        pad0.can_draw,
        pointer_effect(w0, pad0, PadPointerEvent::Down(p), w1, pad1, r1),
        pointer_effect(w1, pad1, PadPointerEvent::Up(q), w2, pad2, r2),
    ensures
        pad2.stroke_view() == pad0.stroke_view().push(seq![p, q]),
        !w2.pointer_down,
        has_points(pad2.stroke_view()),
{
    assert(pad1.strokes@.len() > 0) by {
        assert(pad1.stroke_view().len() == pad0.stroke_view().len() + 1);
    }
    assert(pad1.stroke_view().drop_last() =~= pad0.stroke_view());
    assert(seq![p].push(q) =~= seq![p, q]);
    assert(pad2.stroke_view() =~= pad0.stroke_view().push(seq![p, q]));
    assert(pad2.stroke_view()[pad2.stroke_view().len() - 1].len() > 0);
}

/// The shape of the Bresenham walk from `(ax, ay)`: it starts there, ends
/// at the far corner `(dx, dy)`, and each step moves by 0 or 1 along each
/// axis, never both 0, staying in the box.
pub proof fn lemma_line_offsets_shape(dx: int, dy: int, ax: int, ay: int)
    requires
        0 <= ax <= dx,
        0 <= ay <= dy,
    ensures
        line_offsets(dx, dy, ax, ay).len() >= 1,
        line_offsets(dx, dy, ax, ay)[0] == (ax, ay),
        line_offsets(dx, dy, ax, ay).last() == (dx, dy),
        forall|i: int|
            0 <= i < line_offsets(dx, dy, ax, ay).len() ==> {
                let o = #[trigger] line_offsets(dx, dy, ax, ay)[i];
                ax <= o.0 <= dx && ay <= o.1 <= dy
            },
        forall|i: int|
            0 <= i < line_offsets(dx, dy, ax, ay).len() - 1 ==> {
                let a = #[trigger] line_offsets(dx, dy, ax, ay)[i];
                let b = line_offsets(dx, dy, ax, ay)[i + 1];
                &&& 0 <= b.0 - a.0 <= 1
                &&& 0 <= b.1 - a.1 <= 1
                &&& (b.0 - a.0) + (b.1 - a.1) >= 1
            },
    decreases (dx - ax) + (dy - ay),
{
    if ax == dx && ay == dy {
    } else {
        crate::raster::lemma_line_offsets_step(dx, dy, ax, ay);
        let e2 = 2 * line_err(dx, dy, ax, ay);
        let nax = if e2 >= -dy { ax + 1 } else { ax };
        let nay = if e2 <= dx { ay + 1 } else { ay };
        lemma_line_offsets_shape(dx, dy, nax, nay);
        let rest = line_offsets(dx, dy, nax, nay);
        let all = line_offsets(dx, dy, ax, ay);
        assert(all == seq![(ax, ay)].add(rest));
        assert forall|i: int| 0 <= i < all.len() implies {
            let o = #[trigger] all[i];
            ax <= o.0 <= dx && ay <= o.1 <= dy
        } by {
            if i > 0 {
                assert(all[i] == rest[i - 1]);
            }
        }
        assert forall|i: int| 0 <= i < all.len() - 1 implies {
            let a = #[trigger] all[i];
            let b = all[i + 1];
            &&& 0 <= b.0 - a.0 <= 1
            &&& 0 <= b.1 - a.1 <= 1
            &&& (b.0 - a.0) + (b.1 - a.1) >= 1
        } by {
            if i > 0 {
                assert(all[i] == rest[i - 1]);
                assert(all[i + 1] == rest[i]);
            } else {
                assert(all[1] == rest[0]);
            }
        }
    }
}

/// A drawn line starts at its first end point, stops at the second, and is
/// connected: consecutive points are neighbours (8-connected), each step
/// moving toward the end.
pub proof fn law_line_joins_its_end_points(x0: int, y0: int, x1: int, y1: int)
    ensures
        line_points(x0, y0, x1, y1).len() >= 1,
        line_points(x0, y0, x1, y1)[0] == (x0, y0),
        line_points(x0, y0, x1, y1).last() == (x1, y1),
        forall|i: int|
            0 <= i < line_points(x0, y0, x1, y1).len() - 1 ==> {
                let a = #[trigger] line_points(x0, y0, x1, y1)[i];
                let b = line_points(x0, y0, x1, y1)[i + 1];
                &&& abs_int(b.0 - a.0) <= 1
                &&& abs_int(b.1 - a.1) <= 1
                &&& (a.0 != b.0 || a.1 != b.1)
            },
{
    let dx = abs_int(x1 - x0);
    let dy = abs_int(y1 - y0);
    let sx = step_sign(x0, x1);
    let sy = step_sign(y0, y1);
    lemma_line_offsets_shape(dx, dy, 0, 0);
    let offs = line_offsets(dx, dy, 0, 0);
    let pts = line_points(x0, y0, x1, y1);
    assert(pts.len() == offs.len());
    assert(pts[0] == (x0 + sx * offs[0].0, y0 + sy * offs[0].1));
    assert(pts.last() == pts[pts.len() - 1]);
    assert(pts[pts.len() - 1] == (x0 + sx * dx, y0 + sy * dy));
    assert(x0 + sx * dx == x1 && y0 + sy * dy == y1) by (nonlinear_arith)
        requires
            sx == step_sign(x0, x1),
            sy == step_sign(y0, y1),
            dx == abs_int(x1 - x0),
            dy == abs_int(y1 - y0),
    ;
    assert forall|i: int| 0 <= i < pts.len() - 1 implies {
        let a = #[trigger] pts[i];
        let b = pts[i + 1];
        &&& abs_int(b.0 - a.0) <= 1
        &&& abs_int(b.1 - a.1) <= 1
        &&& (a.0 != b.0 || a.1 != b.1)
    } by {
        let oa = offs[i];
        let ob = offs[i + 1];
        assert(pts[i] == (x0 + sx * oa.0, y0 + sy * oa.1));
        assert(pts[i + 1] == (x0 + sx * ob.0, y0 + sy * ob.1));
        assert(abs_int((x0 + sx * ob.0) - (x0 + sx * oa.0)) <= 1 && abs_int((y0 + sy * ob.1) - (y0 + sy * oa.1)) <= 1
            && ((x0 + sx * oa.0) != (x0 + sx * ob.0) || (y0 + sy * oa.1) != (y0 + sy * ob.1))) by (nonlinear_arith)
            requires
                sx == 1 || sx == -1,
                sy == 1 || sy == -1,
                0 <= ob.0 - oa.0 <= 1,
                0 <= ob.1 - oa.1 <= 1,
                (ob.0 - oa.0) + (ob.1 - oa.1) >= 1,
        ;
    }
}

/// A call on the QR hand-off: `store_qr_result`, `peek_qr_result`,
/// `consume_qr_result` or `clear_qr_result`.
pub enum QrCall {
    Store(String),
    Peek,
    Consume,
    Clear,
}

/// The runtime after one QR call, as that call's contract gives it.
pub open spec fn qr_call_effect(rt: CameraRuntime, c: QrCall) -> CameraRuntime {
    match c {
        QrCall::Store(s) => with_stored_qr(rt, s),
        QrCall::Peek => after_peek(rt),
        QrCall::Consume => without_qr(rt),
        QrCall::Clear => without_qr(rt),
    }
}

/// The runtime after a history of QR calls, in order.
pub open spec fn qr_history(rt: CameraRuntime, calls: Seq<QrCall>) -> CameraRuntime
    decreases calls.len(),
{
    if calls.len() == 0 {
        rt
    } else {
        qr_call_effect(qr_history(rt, calls.drop_last()), calls.last())
    }
}

/// Whether `calls[i]` is a store followed by nothing but peeks.
pub open spec fn live_store_at(calls: Seq<QrCall>, i: int) -> bool {
    &&& 0 <= i < calls.len()
    &&& calls[i] is Store
    &&& forall|j: int| i < j < calls.len() ==> #[trigger] calls[j] is Peek
}

proof fn lemma_qr_history(rt: CameraRuntime, calls: Seq<QrCall>)
    requires
        !rt.qr_ready,
    ensures
        qr_history(rt, calls).qr_ready ==> qr_history(rt, calls).qr_result is Some,
        qr_history(rt, calls).qr_ready <==> exists|i: int| live_store_at(calls, i),
        forall|i: int| #[trigger] live_store_at(calls, i) ==> (calls[i] matches QrCall::Store(s)
            && pending_qr(qr_history(rt, calls)) == Some(s@)),
        !qr_history(rt, calls).qr_ready ==> pending_qr(qr_history(rt, calls)) is None,
    decreases calls.len(),
{
    if calls.len() > 0 {
        let prev = calls.drop_last();
        let n = calls.len() - 1;
        lemma_qr_history(rt, prev);
        let r0 = qr_history(rt, prev);
        match calls.last() {
            QrCall::Store(s) => {
                assert(live_store_at(calls, n));
                assert forall|i: int| #[trigger] live_store_at(calls, i) implies i == n by {
                    if i < n {
                        assert(calls[n] is Peek);
                    }
                }
            },
            QrCall::Peek => {
                assert forall|i: int| #[trigger] live_store_at(calls, i) <==> (live_store_at(prev, i)) by {
                    if 0 <= i < n {
                        assert(calls[i] == prev[i]);
                        if live_store_at(prev, i) {
                            assert forall|j: int| i < j < calls.len() implies #[trigger] calls[j] is Peek by {
                                if j < n {
                                    assert(calls[j] == prev[j]);
                                }
                            }
                        }
                        if live_store_at(calls, i) {
                            assert forall|j: int| i < j < prev.len() implies #[trigger] prev[j] is Peek by {
                                assert(calls[j] == prev[j]);
                            }
                        }
                    }
                }
                if r0.qr_ready {
                    let i = choose|i: int| live_store_at(prev, i);
                    assert(live_store_at(calls, i));
                }
                if exists|i: int| live_store_at(calls, i) {
                    let i = choose|i: int| live_store_at(calls, i);
                    assert(live_store_at(prev, i));
                }
            },
            _ => {
                assert forall|i: int| !#[trigger] live_store_at(calls, i) by {
                    if 0 <= i < n {
                        assert(calls[n] !is Peek);
                    }
                }
            },
        }
    }
}

/// Readiness over a history of QR calls: starting from a runtime with no
/// pending result (as `CameraRuntime::new` makes it), a result is ready
/// exactly when some store was followed by no consume and no clear (only by
/// peeks), and then the pending text is that store's text; otherwise
/// nothing is pending. Asking whether a result is ready changes nothing
/// (`qr_result_ready` takes the runtime by shared reference).
pub proof fn law_qr_ready_over_history(rt: CameraRuntime, calls: Seq<QrCall>)
    requires
        !rt.qr_ready,
    ensures
        qr_history(rt, calls).qr_ready <==> exists|i: int| live_store_at(calls, i),
        forall|i: int| #[trigger] live_store_at(calls, i) ==> (calls[i] matches QrCall::Store(s)
            && pending_qr(qr_history(rt, calls)) == Some(s@)),
        !(exists|i: int| live_store_at(calls, i)) ==> pending_qr(qr_history(rt, calls)) is None,
{
    lemma_qr_history(rt, calls);
}

/// The runtime after `store_screen_size_from_app(w, h)`, as its contract
/// gives it.
pub open spec fn stored_screen_size(rt: CameraRuntime, w: u32, h: u32) -> CameraRuntime {
    if w > 0 && h > 0 {
        CameraRuntime { screen_w: if w < h { w } else { h }, screen_h: if w < h { h } else { w }, ..rt }
    } else {
        rt
    }
}

/// The runtime after a series of reported window sizes, in order.
pub open spec fn screen_size_history(rt: CameraRuntime, sizes: Seq<(u32, u32)>) -> CameraRuntime
    decreases sizes.len(),
{
    if sizes.len() == 0 {
        rt
    } else {
        let last = sizes.last();
        stored_screen_size(screen_size_history(rt, sizes.drop_last()), last.0, last.1)
    }
}

/// The screen size stays in portrait order: from a runtime whose size is
/// positive with the narrow side first (`CameraRuntime::new` gives 1080 x
/// 1920), every series of reported sizes keeps `0 < screen_w <= screen_h`;
/// when no reported size is positive on both sides, the size is unchanged.
pub proof fn law_screen_size_narrow_side_first(rt: CameraRuntime, sizes: Seq<(u32, u32)>)
    requires
        0 < rt.screen_w <= rt.screen_h,
    ensures
        0 < screen_size_history(rt, sizes).screen_w <= screen_size_history(rt, sizes).screen_h,
        (forall|i: int| 0 <= i < sizes.len() ==> #[trigger] sizes[i].0 == 0 || sizes[i].1 == 0) ==> (
        screen_size_history(rt, sizes).screen_w, screen_size_history(rt, sizes).screen_h) == (rt.screen_w, rt.screen_h),
    decreases sizes.len(),
{
    if sizes.len() > 0 {
        law_screen_size_narrow_side_first(rt, sizes.drop_last());
        if forall|i: int| 0 <= i < sizes.len() ==> #[trigger] sizes[i].0 == 0 || sizes[i].1 == 0 {
            assert forall|i: int| 0 <= i < sizes.drop_last().len() implies #[trigger] sizes.drop_last()[i].0 == 0
                || sizes.drop_last()[i].1 == 0 by {
                assert(sizes.drop_last()[i] == sizes[i]);
            }
            assert(sizes[sizes.len() - 1] == sizes.last());
        }
    }
}

/// An event that moves the preview frame counter: a published frame, the
/// preview hidden (`hide_overlay`, `hide_camera_overlay`), or the runtime
/// reset (`reset_runtime_state`).
pub enum FrameEvent {
    Publish(CameraFrame),
    Hide,
    Reset,
}

/// The runtime after one frame event, as the call's contract gives it.
pub open spec fn frame_event_effect(rt: CameraRuntime, e: FrameEvent) -> CameraRuntime {
    match e {
        FrameEvent::Publish(f) => CameraRuntime { frame: Some(f), frame_gen: next_gen(rt.frame_gen), ..rt },
        FrameEvent::Hide => after_hide(rt),
        FrameEvent::Reset => reset_runtime(rt),
    }
}

/// The runtime after a series of frame events, in order.
pub open spec fn frame_history(rt: CameraRuntime, events: Seq<FrameEvent>) -> CameraRuntime
    decreases events.len(),
{
    if events.len() == 0 {
        rt
    } else {
        frame_event_effect(frame_history(rt, events.drop_last()), events.last())
    }
}

/// The frame counter counts the events: after `k` publish, hide or reset
/// events that do not carry it past `u64::MAX`, it has grown by exactly
/// `k`; so it never goes down, and it stays put while none happens.
pub proof fn law_frame_gen_counts_events(rt: CameraRuntime, events: Seq<FrameEvent>)
    requires
        rt.frame_gen + events.len() <= u64::MAX,
    ensures
        frame_history(rt, events).frame_gen == rt.frame_gen + events.len(),
    decreases events.len(),
{
    if events.len() > 0 {
        law_frame_gen_counts_events(rt, events.drop_last());
    }
}

/// Whether segment `j` of a stroke (from point `j` to point `j + 1`) passes
/// through `(x, y)`.
pub open spec fn segment_covers(stroke: Seq<(i32, i32)>, j: int, x: int, y: int) -> bool {
    line_points(stroke[j].0 as int, stroke[j].1 as int, stroke[j + 1].0 as int, stroke[j + 1].1 as int).contains((x, y))
}

/// Whether some segment of a stroke passes through `(x, y)`.
pub open spec fn stroke_covers(stroke: Seq<(i32, i32)>, x: int, y: int) -> bool {
    exists|j: int| 0 <= j && j + 1 < stroke.len() && #[trigger] segment_covers(stroke, j, x, y)
}

/// Whether some segment of some stroke passes through `(x, y)`.
pub open spec fn signature_covers(strokes: Seq<Seq<(i32, i32)>>, x: int, y: int) -> bool {
    exists|k: int| 0 <= k < strokes.len() && #[trigger] stroke_covers(strokes[k], x, y)
}

proof fn lemma_grid_index_unique(qx: int, qy: int, x: int, y: int, w: int)
    requires
        0 <= qx < w,
        0 <= x < w,
        0 <= qy,
        0 <= y,
    ensures
        (qy * w + qx == y * w + x) <==> (qx == x && qy == y),
{
    if qy * w + qx == y * w + x && !(qx == x && qy == y) {
        if qy < y {
            assert(qy * w + qx < y * w + x) by (nonlinear_arith)
                requires
                    qy < y,
                    0 <= qx < w,
                    0 <= x,
            ;
        } else if qy > y {
            assert(qy * w + qx > y * w + x) by (nonlinear_arith)
                requires
                    qy > y,
                    0 <= x < w,
                    0 <= qx,
            ;
        }
    }
}

proof fn lemma_paint_points_at(pixels: Seq<Rgba8>, w: int, h: int, pts: Seq<(int, int)>, c: Rgba8, x: int, y: int)
    requires
        pixels.len() == w * h,
        0 <= x < w,
        0 <= y < h,
    ensures
        paint_points(pixels, w, h, pts, c).len() == w * h,
        paint_points(pixels, w, h, pts, c)[y * w + x] == (if pts.contains((x, y)) { c } else { pixels[y * w + x] }),
    decreases pts.len(),
{
    crate::raster::lemma_index_in_grid(x, y, w, h);
    if pts.len() > 0 {
        let prev = pts.drop_last();
        lemma_paint_points_at(pixels, w, h, prev, c, x, y);
        let q = pts.last();
        if 0 <= q.0 < w && 0 <= q.1 < h {
            crate::raster::lemma_index_in_grid(q.0, q.1, w, h);
            lemma_grid_index_unique(q.0, q.1, x, y, w);
        }
        if pts.contains((x, y)) && !prev.contains((x, y)) {
            let i = choose|i: int| 0 <= i < pts.len() && pts[i] == (x, y);
            if i < prev.len() {
                assert(prev[i] == pts[i]);
            }
        }
        if prev.contains((x, y)) {
            let i = choose|i: int| 0 <= i < prev.len() && prev[i] == (x, y);
            assert(pts[i] == prev[i]);
        }
        if q == (x, y) {
            assert(pts[pts.len() - 1] == (x, y));
        }
    }
}

proof fn lemma_paint_segments_at(
    pixels: Seq<Rgba8>,
    w: int,
    h: int,
    stroke: Seq<(i32, i32)>,
    n: int,
    c: Rgba8,
    x: int,
    y: int,
)
    requires
        pixels.len() == w * h,
        0 <= x < w,
        0 <= y < h,
        n < stroke.len(),
    ensures
        paint_segments(pixels, w, h, stroke, n, c).len() == w * h,
        paint_segments(pixels, w, h, stroke, n, c)[y * w + x] == (if exists|j: int|
            0 <= j < n && #[trigger] segment_covers(stroke, j, x, y) {
            c
        } else {
            pixels[y * w + x]
        }),
    decreases n,
{
    if n > 0 {
        lemma_paint_segments_at(pixels, w, h, stroke, n - 1, c, x, y);
        let before = paint_segments(pixels, w, h, stroke, n - 1, c);
        let seg = line_points(
            stroke[n - 1].0 as int,
            stroke[n - 1].1 as int,
            stroke[n].0 as int,
            stroke[n].1 as int,
        );
        lemma_paint_points_at(before, w, h, seg, c, x, y);
        assert(seg.contains((x, y)) == segment_covers(stroke, n - 1, x, y));
        if exists|j: int| 0 <= j < n - 1 && #[trigger] segment_covers(stroke, j, x, y) {
            let j = choose|j: int| 0 <= j < n - 1 && #[trigger] segment_covers(stroke, j, x, y);
            assert(0 <= j < n && segment_covers(stroke, j, x, y));
        }
    }
}

proof fn lemma_paint_strokes_at(
    pixels: Seq<Rgba8>,
    w: int,
    h: int,
    strokes: Seq<Seq<(i32, i32)>>,
    c: Rgba8,
    x: int,
    y: int,
)
    requires
        pixels.len() == w * h,
        0 <= x < w,
        0 <= y < h,
    ensures
        paint_strokes(pixels, w, h, strokes, c).len() == w * h,
        paint_strokes(pixels, w, h, strokes, c)[y * w + x] == (if signature_covers(strokes, x, y) {
            c
        } else {
            pixels[y * w + x]
        }),
    decreases strokes.len(),
{
    if strokes.len() > 0 {
        let prev = strokes.drop_last();
        let s = strokes.last();
        lemma_paint_strokes_at(pixels, w, h, prev, c, x, y);
        let before = paint_strokes(pixels, w, h, prev, c);
        lemma_paint_segments_at(before, w, h, s, s.len() - 1, c, x, y);
        assert((exists|j: int| 0 <= j < s.len() - 1 && #[trigger] segment_covers(s, j, x, y)) == stroke_covers(s, x, y));
        if signature_covers(prev, x, y) {
            let k = choose|k: int| 0 <= k < prev.len() && #[trigger] stroke_covers(prev[k], x, y);
            assert(strokes[k] == prev[k]);
            assert(signature_covers(strokes, x, y));
        }
        if stroke_covers(s, x, y) {
            assert(strokes[strokes.len() - 1] == s);
            assert(signature_covers(strokes, x, y));
        }
        if signature_covers(strokes, x, y) && !stroke_covers(s, x, y) {
            let k = choose|k: int| 0 <= k < strokes.len() && #[trigger] stroke_covers(strokes[k], x, y);
            if k < prev.len() {
                assert(prev[k] == strokes[k]);
            }
        }
    }
}

/// The signature image shows every stroke: a pixel of the `w` x `h` canvas
/// is ink exactly when some segment of some stroke (the Bresenham line from
/// one recorded point to the next) passes through it, and paper otherwise.
pub proof fn law_signature_shows_every_stroke(w: int, h: int, strokes: Seq<Seq<(i32, i32)>>, x: int, y: int)
    requires
        0 <= x < w,
        0 <= y < h,
    ensures
        signature_pixels(w, h, strokes).len() == w * h,
        signature_pixels(w, h, strokes)[y * w + x] == (if signature_covers(strokes, x, y) { INK } else { PAPER }),
{
    assert(w * h >= 0) by (nonlinear_arith)
        requires
            w > 0,
            h > 0,
    ;
    crate::raster::lemma_index_in_grid(x, y, w, h);
    lemma_paint_strokes_at(blank_canvas(w, h), w, h, strokes, INK, x, y);
}

/// A further stroke is painted on top of the image of the strokes before
/// it: the image of `strokes` followed by `s` is the image of `strokes` with
/// the segments of `s` painted in ink.
pub proof fn law_signature_adds_strokes_in_order(w: int, h: int, strokes: Seq<Seq<(i32, i32)>>, s: Seq<(i32, i32)>)
    ensures
        signature_pixels(w, h, strokes.push(s)) == paint_stroke(signature_pixels(w, h, strokes), w, h, s, INK),
{
    assert(strokes.push(s).drop_last() =~= strokes);
}

/// The number of bytes a plane of `rows` x `cols` samples needs with its
/// strides: up to and including its last sample.
pub open spec fn plane_extent(p: Plane, rows: int, cols: int) -> int {
    (rows - 1) * p.row_stride + (cols - 1) * p.pixel_stride + 1
}

proof fn lemma_sample_below(n: int, d: int, k: int)
    requires
        0 <= k < d,
        n > 0,
    ensures
        0 <= k * n / d < n,
{
    assert(0 <= k * n / d < n) by (nonlinear_arith)
        requires
            0 <= k < d,
            n > 0,
    ;
}

proof fn lemma_offset_inside(r: int, c: int, rows: int, cols: int, rs: int, ps: int)
    requires
        0 <= r < rows,
        0 <= c < cols,
        rs >= 0,
        ps >= 0,
    ensures
        0 <= r * rs + c * ps <= (rows - 1) * rs + (cols - 1) * ps,
{
    assert(0 <= r * rs + c * ps <= (rows - 1) * rs + (cols - 1) * ps) by (nonlinear_arith)
        requires
            0 <= r < rows,
            0 <= c < cols,
            rs >= 0,
            ps >= 0,
    ;
}

/// YUV420 chroma is at half resolution: for a `src_w` x `src_h` frame whose
/// luma plane holds `src_h` rows of `src_w` samples and whose two chroma
/// planes hold only `(src_h + 1) / 2` rows of `(src_w + 1) / 2` samples, all
/// of one colour, every pixel of the preview shows that colour (BT.601 in
/// integers) and none falls outside a plane.
pub proof fn law_preview_of_uniform_yuv420_frame(
    yp: Plane,
    up: Plane,
    vp: Plane,
    src_w: int,
    src_h: int,
    dst_w: int,
    dst_h: int,
    luma: u8,
    cb: u8,
    cr: u8,
    x: int,
    y: int,
)
    requires
        src_w > 0,
        src_h > 0,
        0 <= x < dst_w,
        0 <= y < dst_h,
        yp.data@.len() >= plane_extent(yp, src_h, src_w),
        up.data@.len() >= plane_extent(up, (src_h + 1) / 2, (src_w + 1) / 2),
        vp.data@.len() >= plane_extent(vp, (src_h + 1) / 2, (src_w + 1) / 2),
        forall|i: int| 0 <= i < yp.data@.len() ==> #[trigger] yp.data@[i] == luma,
        forall|i: int| 0 <= i < up.data@.len() ==> #[trigger] up.data@[i] == cb,
        forall|i: int| 0 <= i < vp.data@.len() ==> #[trigger] vp.data@[i] == cr,
    ensures
        preview_pixel(yp, up, vp, src_w, src_h, dst_w, dst_h, x, y) == (
            clamp_byte(luma + ((cr - 128) * 359) / 256),
            clamp_byte(luma - ((cb - 128) * 88) / 256 - ((cr - 128) * 183) / 256),
            clamp_byte(luma + ((cb - 128) * 454) / 256),
            255u8,
        ),
{
    let sy = y * src_h / dst_h;
    let sx = x * src_w / dst_w;
    lemma_sample_below(src_h, dst_h, y);
    lemma_sample_below(src_w, dst_w, x);
    lemma_offset_inside(sy, sx, src_h, src_w, yp.row_stride as int, yp.pixel_stride as int);
    assert(0 <= sy / 2 < (src_h + 1) / 2);
    assert(0 <= sx / 2 < (src_w + 1) / 2);
    lemma_offset_inside(sy / 2, sx / 2, (src_h + 1) / 2, (src_w + 1) / 2, up.row_stride as int, up.pixel_stride as int);
    lemma_offset_inside(sy / 2, sx / 2, (src_h + 1) / 2, (src_w + 1) / 2, vp.row_stride as int, vp.pixel_stride as int);
}

/// The luma plane a camera frame must provide: an unpadded plane (stride
/// equal to the width) exactly `width * height` bytes; any plane with at
/// least one row, up to the end of its last row, `(height - 1) * stride +
/// width` bytes, whatever padding follows.
pub proof fn law_luma_plane_size(width: u32, height: u32, row_stride: i32)
    ensures
        effective_stride(row_stride) == width ==> luma_bytes_needed(width as int, height as int, effective_stride(row_stride))
            == width * height,
        height > 0 ==> luma_bytes_needed(width as int, height as int, effective_stride(row_stride)) == (height - 1)
            * effective_stride(row_stride) + width,
{
    crate::frame_convert::lemma_luma_bytes_needed_shape(width as int, height as int, effective_stride(row_stride));
}

/// A move while the pointer is pressed on a pad that accepts drawing adds
/// its point to the end of the stroke being drawn (the last one) and leaves
/// every earlier stroke as it was.
pub proof fn law_move_extends_current_stroke<M, P, S>(
    w: SignaturePadWidget<M>,
    pad: SignaturePadState<P, S>,
    p: P,
    new_w: SignaturePadWidget<M>,
    new_pad: SignaturePadState<P, S>,
    resp: crate::signature_pad::PointerResponse,
)
    requires
        w.pointer_down,
        pad.can_draw,
        pad.strokes@.len() > 0,
        pointer_effect(w, pad, PadPointerEvent::Move(p), new_w, new_pad, resp),
    ensures
        new_pad.stroke_view().len() == pad.stroke_view().len(),
        forall|i: int| 0 <= i < pad.stroke_view().len() - 1 ==> new_pad.stroke_view()[i] == #[trigger] pad.stroke_view()[i],
        new_pad.stroke_view().last() == pad.stroke_view().last().push(p),
        new_w.pointer_down,
{
    assert(pad.stroke_view().len() == pad.strokes@.len());
}

/// Press, move and release on a pad that accepts drawing add exactly one
/// stroke, made of the three points in order; the strokes drawn before stay
/// as they were.
pub proof fn law_press_move_release_adds_one_stroke<M, P, S>(
    w0: SignaturePadWidget<M>,
    pad0: SignaturePadState<P, S>,
    a: P,
    b: P,
    c: P,
    r1: crate::signature_pad::PointerResponse,
    w1: SignaturePadWidget<M>,
    pad1: SignaturePadState<P, S>,
    r2: crate::signature_pad::PointerResponse,
    w2: SignaturePadWidget<M>,
    pad2: SignaturePadState<P, S>,
    r3: crate::signature_pad::PointerResponse,
    w3: SignaturePadWidget<M>,
    pad3: SignaturePadState<P, S>,
)
    requires
        pad0.can_draw,
        pointer_effect(w0, pad0, PadPointerEvent::Down(a), w1, pad1, r1),
        pointer_effect(w1, pad1, PadPointerEvent::Move(b), w2, pad2, r2),
        pointer_effect(w2, pad2, PadPointerEvent::Up(c), w3, pad3, r3),
    ensures
        pad3.stroke_view() == pad0.stroke_view().push(seq![a, b, c]),
        !w3.pointer_down,
{
    assert(pad1.strokes@.len() == pad0.strokes@.len() + 1) by {
        assert(pad1.stroke_view().len() == pad0.stroke_view().len() + 1);
    }
    assert(pad1.stroke_view().drop_last() =~= pad0.stroke_view());
    assert(pad2.strokes@.len() == pad1.strokes@.len()) by {
        assert(pad2.stroke_view().len() == pad1.stroke_view().len());
    }
    assert(pad2.stroke_view().drop_last() =~= pad0.stroke_view());
    assert(seq![a].push(b).push(c) =~= seq![a, b, c]);
    assert(pad3.stroke_view() =~= pad0.stroke_view().push(seq![a, b, c]));
}

/// The QR outcome of a frame of any size is fixed by what the decoder finds:
/// the first non-empty text found in the frame as it is; failing that, the
/// first one found in the frame turned a quarter; failing both, none. No
/// frame size is excluded.
pub proof fn law_qr_found_for_every_frame_size(y: Seq<u8>, w: u32, h: u32)
    ensures
        first_text(qr_grid_texts(w, h, y)) is Some ==> decoded_qr(y, w, h) == first_text(qr_grid_texts(w, h, y)),
        first_text(qr_grid_texts(w, h, y)) is None ==> decoded_qr(y, w, h) == first_text(
            qr_grid_texts(h, w, quarter_turn(y, w as int, h as int)),
        ),
{
}

/// The frame the decoder retries on is the frame turned a quarter
/// counter-clockwise: an `h` x `w` image in which the sample at row `col`,
/// column `h - 1 - row` is the original sample at row `row`, column `col`.
pub proof fn law_quarter_turn_is_counter_clockwise(y: Seq<u8>, w: int, h: int)
    requires
        w >= 0,
        h >= 0,
    ensures
        quarter_turn(y, w, h).len() == w * h,
        forall|row: int, col: int|
            0 <= row < h && 0 <= col < w ==> #[trigger] quarter_turn(y, w, h)[col * h + (h - 1 - row)] == y[row * w
                + col],
{
    assert(w * h >= 0) by (nonlinear_arith)
        requires
            w >= 0,
            h >= 0,
    ;
    assert forall|row: int, col: int| 0 <= row < h && 0 <= col < w implies #[trigger] quarter_turn(y, w, h)[col * h + (h
        - 1 - row)] == y[row * w + col] by {
        let i = col * h + (h - 1 - row);
        vstd::arithmetic::div_mod::lemma_fundamental_div_mod_converse(i, h, col, h - 1 - row);
        assert(0 <= i < w * h) by (nonlinear_arith)
            requires
                i == col * h + (h - 1 - row),
                0 <= row < h,
                0 <= col < w,
        ;
    }
}

} // verus!
