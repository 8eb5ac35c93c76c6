//! The signature pad: strokes recorded from pointer events, the drawing
//! switch, and the change counter that makes the pad repaint.

use vstd::prelude::*;

verus! {

/// The strokes as sequences of points.
pub open spec fn stroke_seqs<P>(strokes: Seq<Vec<P>>) -> Seq<Seq<P>> {
    strokes.map_values(|s: Vec<P>| s@)
}

/// Whether some stroke holds a point.
pub open spec fn has_points<P>(strokes: Seq<Seq<P>>) -> bool {
    exists|i: int| 0 <= i < strokes.len() && #[trigger] strokes[i].len() > 0
}

/// What the pad holds: the strokes drawn so far (each a list of points),
/// whether drawing is enabled, and the canvas size the strokes refer to.
pub struct SignaturePadState<P, S> {
    pub strokes: Vec<Vec<P>>,
    pub can_draw: bool,
    pub canvas_size: S,
}

impl<P, S> SignaturePadState<P, S> {
    /// The strokes as sequences of points.
    pub open spec fn stroke_view(&self) -> Seq<Seq<P>> {
        stroke_seqs(self.strokes@)
    }

    /// An empty pad that accepts drawing.
    pub fn new(canvas_size: S) -> (pad: Self)
        ensures
            pad.strokes@.len() == 0,
            pad.can_draw,
            pad.canvas_size == canvas_size,
    {
        SignaturePadState { strokes: Vec::new(), can_draw: true, canvas_size }
    }

    /// Removes every stroke and enables drawing again.
    pub fn clear_strokes(&mut self)
        ensures
            final(self).strokes@.len() == 0,
            final(self).can_draw,
            final(self).canvas_size == old(self).canvas_size,
    {
        self.strokes.clear();
        self.can_draw = true;
    }

    /// Whether some stroke holds a point, that is, whether anything is drawn.
    pub fn has_signature(&self) -> (found: bool)
        ensures
            found == has_points(self.stroke_view()),
    {
        let mut i: usize = 0;
        while i < self.strokes.len()
            invariant
                i <= self.strokes.len(),
                forall|j: int| 0 <= j < i ==> self.strokes@[j]@.len() == 0,
            decreases self.strokes.len() - i,
        {
            if self.strokes[i].len() > 0 {
                assert(self.stroke_view()[i as int].len() > 0);
                return true;
            }
            i = i + 1;
        }
        assert forall|j: int| 0 <= j < self.stroke_view().len() implies #[trigger] self.stroke_view()[j].len() == 0 by {
            assert(self.stroke_view()[j] == self.strokes@[j]@);
        }
        false
    }

    /// Starts a new stroke at `p` when drawing is enabled.
    pub fn begin_stroke(&mut self, p: P)
        ensures
            final(self).can_draw == old(self).can_draw,
            final(self).canvas_size == old(self).canvas_size,
            old(self).can_draw ==> final(self).stroke_view() == old(self).stroke_view().push(seq![p]),
            !old(self).can_draw ==> final(self).stroke_view() == old(self).stroke_view(),
    {
        if !self.can_draw {
            return;
        }
        let mut stroke: Vec<P> = Vec::new();
        stroke.push(p);
        self.strokes.push(stroke);
        proof {
            assert(final(self).stroke_view() =~= old(self).stroke_view().push(seq![p]));
        }
    }

    /// Adds `p` to the current stroke when drawing is enabled; with no
    /// stroke yet, `p` starts one.
    pub fn push_point(&mut self, p: P)
        ensures
            final(self).can_draw == old(self).can_draw,
            final(self).canvas_size == old(self).canvas_size,
            !old(self).can_draw ==> final(self).stroke_view() == old(self).stroke_view(),
            old(self).can_draw && old(self).strokes@.len() == 0 ==> final(self).stroke_view() == seq![seq![p]],
            old(self).can_draw && old(self).strokes@.len() > 0 ==> final(self).stroke_view()
                == old(self).stroke_view().drop_last().push(old(self).stroke_view().last().push(p)),
    {
        if !self.can_draw {
            return;
        }
        if self.strokes.len() == 0 {
            let mut stroke: Vec<P> = Vec::new();
            stroke.push(p);
            self.strokes.push(stroke);
            proof {
                assert(final(self).stroke_view() =~= seq![seq![p]]);
            }
            return;
        }
        let ghost before = self.stroke_view();
        let mut last = self.strokes.pop().unwrap();
        last.push(p);
        self.strokes.push(last);
        proof {
            assert(final(self).stroke_view() =~= before.drop_last().push(before.last().push(p)));
        }
    }

    /// Records the size of the canvas the strokes are drawn on; only while
    /// drawing is enabled.
    pub fn record_canvas_size(&mut self, size: S)
        ensures
            final(self).strokes == old(self).strokes,
            final(self).can_draw == old(self).can_draw,
            final(self).canvas_size == (if old(self).can_draw { size } else { old(self).canvas_size }),
    {
        if self.can_draw {
            self.canvas_size = size;
        }
    }
}

/// Advances the pad's change counter, wrapping at `u64::MAX`.
pub fn notify_signature_pad_changed(gen: &mut u64)
    ensures
        *final(gen) == crate::camera::next_gen(*old(gen)),
{
    *gen = crate::camera::bump_gen(*gen);
}

/// A pointer event as the pad sees it, with its position in pad coordinates.
pub enum PadPointerEvent<P> {
    Down(P),
    Move(P),
    Up(P),
    Cancel,
    Other,
}

/// What the widget asks of the framework after an event.
#[derive(Clone, Copy, Debug, PartialEq, Eq, Structural)]
pub struct PointerResponse {
    pub capture_pointer: bool,
    pub release_pointer: bool,
    pub request_render: bool,
    pub handled: bool,
}

/// The pad widget: its model handle, whether a stroke is in progress, and
/// the change counter value it last painted.
pub struct SignaturePadWidget<M> {
    pub model: M,
    pub pointer_down: bool,
    pub last_seen_gen: u64,
}

/// The strokes after `push_point(p)` on a pad.
pub open spec fn extended_strokes<P, S>(pad: SignaturePadState<P, S>, p: P) -> Seq<Seq<P>> {
    if !pad.can_draw {
        pad.stroke_view()
    } else if pad.strokes@.len() == 0 {
        seq![seq![p]]
    } else {
        pad.stroke_view().drop_last().push(pad.stroke_view().last().push(p))
    }
}

/// A response that asks for nothing.
pub open spec fn no_response() -> PointerResponse {
    PointerResponse { capture_pointer: false, release_pointer: false, request_render: false, handled: false }
}

/// What a pointer event does to the widget (`w` to `new_w`) and the pad
/// (`pad` to `new_pad`), and the response: a press starts a stroke when
/// drawing is enabled, moves extend it while pressed, release adds the last
/// point and ends it, cancel ends it.
pub open spec fn pointer_effect<M, P, S>(
    w: SignaturePadWidget<M>,
    pad: SignaturePadState<P, S>,
    event: PadPointerEvent<P>,
    new_w: SignaturePadWidget<M>,
    new_pad: SignaturePadState<P, S>,
    resp: PointerResponse,
) -> bool {
    &&& new_w.model == w.model
    &&& new_w.last_seen_gen == w.last_seen_gen
    &&& new_pad.can_draw == pad.can_draw
    &&& new_pad.canvas_size == pad.canvas_size
    &&& match event {
        PadPointerEvent::Down(p) => if pad.can_draw {
            &&& new_pad.stroke_view() == pad.stroke_view().push(seq![p])
            &&& new_w.pointer_down
            &&& resp == PointerResponse { capture_pointer: true, release_pointer: false, request_render: true, handled: true }
        } else {
            &&& new_pad.stroke_view() == pad.stroke_view()
            &&& new_w.pointer_down == w.pointer_down
            &&& resp == no_response()
        },
        PadPointerEvent::Move(p) => if w.pointer_down {
            &&& new_pad.stroke_view() == extended_strokes(pad, p)
            &&& new_w.pointer_down
            &&& resp == PointerResponse { capture_pointer: false, release_pointer: false, request_render: true, handled: true }
        } else {
            &&& new_pad.stroke_view() == pad.stroke_view()
            &&& !new_w.pointer_down
            &&& resp == no_response()
        },
        PadPointerEvent::Up(p) => {
            &&& new_pad.stroke_view() == (if w.pointer_down { extended_strokes(pad, p) } else { pad.stroke_view() })
            &&& !new_w.pointer_down
            &&& resp == PointerResponse { capture_pointer: false, release_pointer: true, request_render: true, handled: true }
        },
        PadPointerEvent::Cancel => {
            &&& new_pad.stroke_view() == pad.stroke_view()
            &&& !new_w.pointer_down
            &&& resp == PointerResponse { capture_pointer: false, release_pointer: true, request_render: true, handled: true }
        },
        PadPointerEvent::Other => {
            &&& new_pad.stroke_view() == pad.stroke_view()
            &&& new_w.pointer_down == w.pointer_down
            &&& resp == no_response()
        },
    }
}

impl<M> SignaturePadWidget<M> {
    /// A widget over `model`, with no stroke in progress and nothing painted.
    pub fn new(model: M) -> (w: Self)
        ensures
            w.model == model,
            !w.pointer_down,
            w.last_seen_gen == u64::MAX,
    {
        SignaturePadWidget { model, pointer_down: false, last_seen_gen: u64::MAX }
    }

    /// Handles a pointer event; see `pointer_effect`.
    pub fn on_pointer_event<P, S>(&mut self, pad: &mut SignaturePadState<P, S>, event: PadPointerEvent<P>) -> (resp: PointerResponse)
        ensures
            pointer_effect(*old(self), *old(pad), event, *final(self), *final(pad), resp),
    {
        let none = PointerResponse { capture_pointer: false, release_pointer: false, request_render: false, handled: false };
        match event {
            PadPointerEvent::Down(p) => {
                if !pad.can_draw {
                    return none;
                }
                pad.begin_stroke(p);
                self.pointer_down = true;
                PointerResponse { capture_pointer: true, release_pointer: false, request_render: true, handled: true }
            },
            PadPointerEvent::Move(p) => {
                if self.pointer_down {
                    pad.push_point(p);
                    PointerResponse { capture_pointer: false, release_pointer: false, request_render: true, handled: true }
                } else {
                    none
                }
            },
            PadPointerEvent::Up(p) => {
                if self.pointer_down {
                    pad.push_point(p);
                }
                self.pointer_down = false;
                PointerResponse { capture_pointer: false, release_pointer: true, request_render: true, handled: true }
            },
            PadPointerEvent::Cancel => {
                self.pointer_down = false;
                PointerResponse { capture_pointer: false, release_pointer: true, request_render: true, handled: true }
            },
            PadPointerEvent::Other => none,
        }
    }

    /// On an animation frame: repaint when the change counter moved since the
    /// last paint.
    pub fn on_anim_frame(&mut self, gen: u64) -> (render: bool)
        ensures
            render == (gen != old(self).last_seen_gen),
            final(self).last_seen_gen == gen,
            final(self).pointer_down == old(self).pointer_down,
            final(self).model == old(self).model,
    {
        if gen != self.last_seen_gen {
            self.last_seen_gen = gen;
            true
        } else {
            false
        }
    }
}

/// The view of the pad inside the UI tree.
pub struct SignaturePadView<M> {
    pub model: M,
}

/// A view of the pad over `model`.
pub fn signature_pad_view<M>(model: M) -> (v: SignaturePadView<M>)
    ensures
        v.model == model,
{
    SignaturePadView { model }
}

} // verus!
