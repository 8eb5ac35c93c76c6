use scanner_signature_app::signature_pad::{
    notify_signature_pad_changed, signature_pad_view, PadPointerEvent, PointerResponse, SignaturePadState,
    SignaturePadWidget,
};

type Pad = SignaturePadState<(f64, f64), (f64, f64)>;

fn pad() -> Pad {
    SignaturePadState::new((0.0, 0.0))
}

#[test]
fn press_move_release_records_one_stroke() {
    let mut p = pad();
    let mut w = SignaturePadWidget::new(7u8);
    let r = w.on_pointer_event(&mut p, PadPointerEvent::Down((1.0, 1.0)));
    assert_eq!(r, PointerResponse { capture_pointer: true, release_pointer: false, request_render: true, handled: true });
    assert!(w.pointer_down);
    w.on_pointer_event(&mut p, PadPointerEvent::Move((2.0, 1.5)));
    let r = w.on_pointer_event(&mut p, PadPointerEvent::Up((3.0, 2.0)));
    assert_eq!(r, PointerResponse { capture_pointer: false, release_pointer: true, request_render: true, handled: true });
    assert!(!w.pointer_down);
    assert_eq!(p.strokes, vec![vec![(1.0, 1.0), (2.0, 1.5), (3.0, 2.0)]]);
    assert!(p.has_signature());
}

#[test]
fn moves_without_press_are_ignored() {
    let mut p = pad();
    let mut w = SignaturePadWidget::new(());
    let r = w.on_pointer_event(&mut p, PadPointerEvent::Move((2.0, 2.0)));
    assert!(!r.handled && !r.request_render);
    assert!(p.strokes.is_empty());
    assert!(!p.has_signature());
}

#[test]
fn frozen_pad_ignores_presses() {
    let mut p = pad();
    p.can_draw = false;
    let mut w = SignaturePadWidget::new(());
    let r = w.on_pointer_event(&mut p, PadPointerEvent::Down((1.0, 1.0)));
    assert!(!r.handled && !r.capture_pointer);
    assert!(!w.pointer_down);
    assert!(p.strokes.is_empty());
}

#[test]
fn cancel_ends_the_stroke() {
    let mut p = pad();
    let mut w = SignaturePadWidget::new(());
    w.on_pointer_event(&mut p, PadPointerEvent::Down((1.0, 1.0)));
    let r = w.on_pointer_event(&mut p, PadPointerEvent::Cancel);
    assert!(r.release_pointer && r.handled);
    assert!(!w.pointer_down);
    w.on_pointer_event(&mut p, PadPointerEvent::Move((5.0, 5.0)));
    assert_eq!(p.strokes, vec![vec![(1.0, 1.0)]]);
    let r = w.on_pointer_event(&mut p, PadPointerEvent::Other);
    assert!(!r.handled);
}

#[test]
fn second_press_starts_second_stroke() {
    let mut p = pad();
    let mut w = SignaturePadWidget::new(());
    w.on_pointer_event(&mut p, PadPointerEvent::Down((1.0, 1.0)));
    w.on_pointer_event(&mut p, PadPointerEvent::Up((2.0, 2.0)));
    w.on_pointer_event(&mut p, PadPointerEvent::Down((5.0, 5.0)));
    assert_eq!(p.strokes, vec![vec![(1.0, 1.0), (2.0, 2.0)], vec![(5.0, 5.0)]]);
}

#[test]
fn push_point_without_stroke_starts_one() {
    let mut p = pad();
    p.push_point((4.0, 4.0));
    assert_eq!(p.strokes, vec![vec![(4.0, 4.0)]]);
    p.can_draw = false;
    p.push_point((5.0, 5.0));
    p.begin_stroke((6.0, 6.0));
    assert_eq!(p.strokes, vec![vec![(4.0, 4.0)]]);
}

#[test]
fn clear_removes_strokes_and_enables_drawing() {
    let mut p = pad();
    p.begin_stroke((1.0, 1.0));
    p.can_draw = false;
    p.clear_strokes();
    assert!(p.strokes.is_empty());
    assert!(p.can_draw);
    assert!(!p.has_signature());
}

#[test]
fn canvas_size_is_recorded_only_while_drawing() {
    let mut p = pad();
    p.record_canvas_size((300.0, 200.0));
    assert_eq!(p.canvas_size, (300.0, 200.0));
    p.can_draw = false;
    p.record_canvas_size((100.0, 50.0));
    assert_eq!(p.canvas_size, (300.0, 200.0));
}

#[test]
fn repaint_only_on_new_generation() {
    let mut w = SignaturePadWidget::new(());
    assert_eq!(w.last_seen_gen, u64::MAX);
    assert!(w.on_anim_frame(0));
    assert!(!w.on_anim_frame(0));
    assert!(w.on_anim_frame(1));
}

#[test]
fn change_counter_wraps() {
    let mut g = 41u64;
    notify_signature_pad_changed(&mut g);
    assert_eq!(g, 42);
    let mut g = u64::MAX;
    notify_signature_pad_changed(&mut g);
    assert_eq!(g, 0);
}

#[test]
fn pad_view_holds_its_model() {
    let v = signature_pad_view(5u32);
    assert_eq!(v.model, 5);
}
