use scanner_signature_app::camera::{frame_work, CaptureLoop};
use scanner_signature_app::frame_convert::{extract_y_plane, rotate_luma_ccw, yuv_to_preview_rgba, Plane};

#[test]
fn preview_pixel_uses_floor_division_for_negative_chroma() {
    let y = [100u8, 0, 0, 0];
    let u = [138u8];
    let v = [108u8];
    let yp = Plane::new(&y, 2, 1);
    let up = Plane::new(&u, 1, 1);
    let vp = Plane::new(&v, 1, 1);
    let out = yuv_to_preview_rgba(&yp, &up, &vp, 2, 2, 1, 1);
    assert_eq!(out, vec![71, 112, 117, 255]);
}

#[test]
fn preview_pixel_is_clamped() {
    let y = [250u8];
    let u = [0u8];
    let v = [255u8];
    let yp = Plane::new(&y, 1, 1);
    let up = Plane::new(&u, 1, 1);
    let vp = Plane::new(&v, 1, 1);
    let out = yuv_to_preview_rgba(&yp, &up, &vp, 1, 1, 1, 1);
    // r = 250 + 178, g = 250 + 44 - 90, b = 250 - 227
    assert_eq!(out, vec![255, 204, 23, 255]);
}

#[test]
fn preview_pixel_outside_a_plane_stays_white() {
    let y = [10u8, 20, 30, 40];
    let u: [u8; 0] = [];
    let v = [128u8];
    let yp = Plane::new(&y, 2, 1);
    let up = Plane::new(&u, 1, 1);
    let vp = Plane::new(&v, 1, 1);
    let out = yuv_to_preview_rgba(&yp, &up, &vp, 2, 2, 2, 1);
    assert_eq!(out, vec![255; 8]);
}

#[test]
fn preview_downsamples_by_nearest_sample() {
    // 4 x 2 source, 2 x 1 preview: samples (0, 0) and (0, 2).
    let y = [10u8, 11, 12, 13, 14, 15, 16, 17];
    let u = [128u8, 128];
    let v = [128u8, 128];
    let yp = Plane::new(&y, 4, 1);
    let up = Plane::new(&u, 2, 1);
    let vp = Plane::new(&v, 2, 1);
    let out = yuv_to_preview_rgba(&yp, &up, &vp, 4, 2, 2, 1);
    assert_eq!(out, vec![10, 10, 10, 255, 12, 12, 12, 255]);
}

#[test]
fn preview_of_empty_size_is_empty() {
    let yp = Plane::new(&[], 0, 0);
    let out = yuv_to_preview_rgba(&yp, &yp, &yp, 0, 0, 0, 0);
    assert!(out.is_empty());
}

#[test]
fn plane_strides_are_at_least_one() {
    let data = [1u8, 2];
    let p = Plane::new(&data, 0, -3);
    assert_eq!(p.row_stride, 1);
    assert_eq!(p.pixel_stride, 1);
    let q = Plane::new(&data, 640, 2);
    assert_eq!(q.row_stride, 640);
    assert_eq!(q.pixel_stride, 2);
}

#[test]
fn luma_plane_without_padding_is_copied() {
    let src = [1u8, 2, 3, 4, 5, 6, 7];
    assert_eq!(extract_y_plane(&src, 3, 2, 3), Some(vec![1, 2, 3, 4, 5, 6]));
    assert_eq!(extract_y_plane(&src[..5], 3, 2, 3), None);
}

#[test]
fn luma_plane_padding_is_dropped() {
    let src = [1u8, 2, 3, 0, 4, 5, 6];
    assert_eq!(extract_y_plane(&src, 3, 2, 4), Some(vec![1, 2, 3, 4, 5, 6]));
    assert_eq!(extract_y_plane(&src[..6], 3, 2, 4), None);
}

#[test]
fn luma_plane_with_nonpositive_stride_uses_stride_one() {
    let src = [9u8, 8, 7];
    // stride 1 with width 2: rows overlap.
    assert_eq!(extract_y_plane(&src, 2, 2, 0), Some(vec![9, 8, 8, 7]));
}

#[test]
fn luma_plane_of_zero_height() {
    assert_eq!(extract_y_plane(&[], 3, 0, 3), Some(vec![]));
    assert_eq!(extract_y_plane(&[], 3, 0, 5), None);
    assert_eq!(extract_y_plane(&[1, 2, 3], 3, 0, 5), Some(vec![]));
}

#[test]
fn quarter_turn_counter_clockwise() {
    // 3 x 2:
    // 1 2 3
    // 4 5 6
    let y = [1u8, 2, 3, 4, 5, 6];
    // 2 x 3 after the turn: row c holds column c, bottom row first.
    assert_eq!(rotate_luma_ccw(&y, 3, 2), vec![4, 1, 5, 2, 6, 3]);
}

#[test]
fn frame_schedule() {
    let plan: Vec<(bool, bool)> = (1..=8).map(frame_work).collect();
    assert_eq!(
        plan,
        vec![
            (false, true),
            (false, true),
            (false, false),
            (true, true),
            (false, false),
            (false, true),
            (false, false),
            (true, true),
        ]
    );
    assert_eq!(frame_work(0), (true, true));
}

#[test]
fn capture_loop_counts_valid_frames() {
    let mut l = CaptureLoop::new();
    assert_eq!(l.next_frame(0, 720), None);
    assert_eq!(l.next_frame(1280, -1), None);
    assert_eq!(l.total, 0);
    assert_eq!(l.next_frame(1280, 720), Some((false, true)));
    assert_eq!(l.next_frame(1280, 720), Some((false, true)));
    assert_eq!(l.next_frame(1280, 720), Some((false, false)));
    assert_eq!(l.next_frame(1280, 720), Some((true, true)));
    assert_eq!(l.total, 4);
}
