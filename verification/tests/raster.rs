use scanner_signature_app::raster::{
    draw_line_rgba, has_nonempty_stroke, pixel_at, raster_size, render_signature, signature_png, SignatureSaveError,
    INK, PAPER,
};

fn inked(strokes: &Vec<Vec<(i32, i32)>>, w: u32, h: u32) -> Vec<(u32, u32)> {
    let r = render_signature(strokes, w, h).ok().unwrap();
    let mut out = Vec::new();
    for y in 0..h {
        for x in 0..w {
            let p = pixel_at(&r, x, y);
            if p == INK {
                out.push((x, y));
            } else {
                assert_eq!(p, PAPER);
            }
        }
    }
    out
}

#[test]
fn no_strokes_is_no_signature() {
    let none: Vec<Vec<(i32, i32)>> = vec![];
    assert_eq!(render_signature(&none, 4, 4).err(), Some(SignatureSaveError::NoSignature));
    let empty = vec![vec![], vec![]];
    assert_eq!(render_signature(&empty, 4, 4).err(), Some(SignatureSaveError::NoSignature));
    assert_eq!(signature_png(&empty, 4, 4), Err(SignatureSaveError::NoSignature));
    assert!(!has_nonempty_stroke(&empty));
}

#[test]
fn a_single_point_is_a_signature_but_draws_nothing() {
    let strokes = vec![vec![(1, 1)]];
    assert!(has_nonempty_stroke(&strokes));
    assert_eq!(inked(&strokes, 3, 3), vec![]);
}

#[test]
fn horizontal_segment() {
    let strokes = vec![vec![(1, 2), (4, 2)]];
    assert_eq!(inked(&strokes, 6, 4), vec![(1, 2), (2, 2), (3, 2), (4, 2)]);
}

#[test]
fn reversed_segment_covers_the_same_pixels() {
    let a = inked(&vec![vec![(0, 0), (5, 2)]], 6, 3);
    let b = inked(&vec![vec![(5, 2), (0, 0)]], 6, 3);
    assert_eq!(a.len(), 6);
    assert!(a.contains(&(0, 0)) && a.contains(&(5, 2)));
    assert_eq!(b.len(), 6);
    assert!(b.contains(&(0, 0)) && b.contains(&(5, 2)));
}

#[test]
fn steep_segment_has_one_pixel_per_row() {
    let px = inked(&vec![vec![(1, 0), (2, 4)]], 4, 5);
    assert_eq!(px.len(), 5);
    for y in 0..5u32 {
        assert_eq!(px.iter().filter(|p| p.1 == y).count(), 1);
    }
}

#[test]
fn diagonal_segment() {
    let px = inked(&vec![vec![(0, 0), (3, 3)]], 4, 4);
    assert_eq!(px, vec![(0, 0), (1, 1), (2, 2), (3, 3)]);
}

#[test]
fn points_outside_the_canvas_are_skipped() {
    let px = inked(&vec![vec![(-2, 1), (5, 1)]], 3, 3);
    assert_eq!(px, vec![(0, 1), (1, 1), (2, 1)]);
}

#[test]
fn polyline_joins_consecutive_points() {
    let px = inked(&vec![vec![(0, 0), (2, 0), (2, 2)], vec![(0, 2)]], 3, 3);
    assert_eq!(px, vec![(0, 0), (1, 0), (2, 0), (2, 1), (2, 2)]);
}

#[test]
fn far_apart_end_points_do_not_overflow() {
    let strokes = vec![vec![(i32::MIN, 0), (i32::MAX, 0)]];
    let r = render_signature(&strokes, 2, 1).ok().unwrap();
    assert_eq!(pixel_at(&r, 0, 0), INK);
    assert_eq!(pixel_at(&r, 1, 0), INK);
}

#[test]
fn drawing_on_a_rendered_raster() {
    let mut r = render_signature(&vec![vec![(0, 0)]], 3, 2).ok().unwrap();
    assert_eq!(raster_size(&r), (3, 2));
    draw_line_rgba(&mut r, 2, 0, 2, 1, (1, 2, 3, 4));
    assert_eq!(pixel_at(&r, 2, 0), (1, 2, 3, 4));
    assert_eq!(pixel_at(&r, 2, 1), (1, 2, 3, 4));
    assert_eq!(pixel_at(&r, 1, 1), PAPER);
}

#[test]
fn signature_png_is_a_png() {
    let bytes = signature_png(&vec![vec![(0, 0), (3, 3)]], 4, 4).unwrap();
    assert_eq!(&bytes[..8], &[137, 80, 78, 71, 13, 10, 26, 10]);
}
