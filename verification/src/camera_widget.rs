//! The camera view: the widget's frame logic (repaint on a new frame,
//! report a detected QR code) and the view's message handling.

use vstd::prelude::*;
use crate::app_state::{AppState, Screen};
use crate::camera::{CameraRuntime, after_peek, pending_qr, peek_qr_result};

verus! {

/// What the camera widget reports.
#[derive(Clone, Copy, Debug, PartialEq, Eq, Structural)]
pub enum CameraWidgetAction {
    QrDetected,
}

/// The camera widget: handles to the frame buffer and the scanning flag, and
/// the generation of the frame it painted last.
pub struct CameraViewWidget<B, A> {
    pub frame_buf: B,
    pub active: A,
    pub last_frame_gen: u64,
}

/// What the widget asks of the framework on an animation frame.
#[derive(Clone, Copy, Debug, PartialEq, Eq, Structural)]
pub struct AnimFrameResponse {
    pub submit_qr_detected: bool,
    pub request_render: bool,
    pub request_anim_frame: bool,
}

impl<B, A> CameraViewWidget<B, A> {
    /// A widget over the given handles that has painted nothing yet.
    pub fn new(frame_buf: B, active: A) -> (w: Self)
        ensures
            w.frame_buf == frame_buf,
            w.active == active,
            w.last_frame_gen == u64::MAX,
    {
        CameraViewWidget { frame_buf, active, last_frame_gen: u64::MAX }
    }

    /// On an animation frame: while scanning, report a waiting QR result,
    /// repaint when the camera produced a new frame, and keep animating.
    pub fn on_anim_frame(&mut self, active: bool, qr_ready: bool, current_gen: u64) -> (resp: AnimFrameResponse)
        ensures
            !active ==> *final(self) == *old(self) && resp == (AnimFrameResponse {
                submit_qr_detected: false,
                request_render: false,
                request_anim_frame: false,
            }),
            active ==> final(self).last_frame_gen == current_gen && final(self).frame_buf == old(self).frame_buf
                && final(self).active == old(self).active && resp == (AnimFrameResponse {
                submit_qr_detected: qr_ready,
                request_render: current_gen != old(self).last_frame_gen,
                request_anim_frame: true,
            }),
    {
        if !active {
            return AnimFrameResponse { submit_qr_detected: false, request_render: false, request_anim_frame: false };
        }
        let render = current_gen != self.last_frame_gen;
        if render {
            self.last_frame_gen = current_gen;
        }
        AnimFrameResponse { submit_qr_detected: qr_ready, request_render: render, request_anim_frame: true }
    }
}

/// The camera view inside the UI tree.
pub struct CameraView<B, A> {
    pub frame_buf: B,
    pub active: A,
}

/// A camera view over the frame buffer and the scanning flag.
pub fn camera_view<B, A>(frame_buf: B, active: A) -> (v: CameraView<B, A>)
    ensures
        v.frame_buf == frame_buf,
        v.active == active,
{
    CameraView { frame_buf, active }
}

/// How the view answers a message.
#[derive(Clone, Copy, Debug, PartialEq, Eq, Structural)]
pub enum CameraMessageResult {
    /// The state changed; the app logic is to run.
    Action,
    /// Nothing to do.
    Nop,
    /// The message is not for this view.
    Stale,
}

impl<B, A> CameraView<B, A> {
    /// Handles a message addressed to the view (`for_this_view`) carrying
    /// `action`: a detected QR code on the scan screen marks the waiting
    /// result as pending in the state; the screen change is left to the app
    /// logic.
    pub fn message<P, S>(
        &self,
        for_this_view: bool,
        action: Option<CameraWidgetAction>,
        state: &mut AppState<P, S>,
        rt: &mut CameraRuntime,
    ) -> (res: CameraMessageResult)
        ensures
            !for_this_view || action is None ==> res == CameraMessageResult::Stale && *final(state) == *old(state)
                && *final(rt) == *old(rt),
            for_this_view && action is Some && old(state).screen != Screen::Scan ==> res == CameraMessageResult::Nop
                && *final(state) == *old(state) && *final(rt) == *old(rt),
            for_this_view && action is Some && old(state).screen == Screen::Scan ==> {
                &&& *final(rt) == after_peek(*old(rt))
                &&& match pending_qr(*old(rt)) {
                    Some(q) => {
                        &&& res == CameraMessageResult::Action
                        &&& *final(state) == (AppState {
                            qr_result: final(state).qr_result,
                            qr_pending: true,
                            ..*old(state)
                        })
                        &&& final(state).qr_result matches Some(r) && r@ == q
                    },
                    None => res == CameraMessageResult::Nop && *final(state) == *old(state),
                }
            },
    {
        if !for_this_view {
            return CameraMessageResult::Stale;
        }
        match action {
            Some(CameraWidgetAction::QrDetected) => {
                if state.screen == Screen::Scan {
                    let peeked = peek_qr_result(rt);
                    if peeked.is_some() {
                        state.qr_result = peeked;
                        state.qr_pending = true;
                        return CameraMessageResult::Action;
                    }
                }
                CameraMessageResult::Nop
            },
            None => CameraMessageResult::Stale,
        }
    }
}

} // verus!
