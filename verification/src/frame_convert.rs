//! Pixel work on camera frames: the downsampled YUV420 to RGBA preview,
//! packing of the luma plane, and the quarter turn used for a second QR
//! pass.

use vstd::prelude::*;
use crate::raster::Rgba8;

verus! {

/// One plane of a camera image: its bytes and its strides, each at least 1.
pub struct Plane<'a> {
    pub data: &'a [u8],
    pub row_stride: usize,
    pub pixel_stride: usize,
}

impl<'a> Plane<'a> {
    /// A plane with the strides the camera reported, raised to at least 1.
    pub fn new(data: &'a [u8], row_stride: i32, pixel_stride: i32) -> (p: Plane<'a>)
        ensures
            p.data@ == data@,
            p.row_stride == (if row_stride < 1 { 1 } else { row_stride as int }),
            p.pixel_stride == (if pixel_stride < 1 { 1 } else { pixel_stride as int }),
    {
        let rs: usize = if row_stride < 1 { 1 } else { row_stride as usize };
        let ps: usize = if pixel_stride < 1 { 1 } else { pixel_stride as usize };
        Plane { data, row_stride: rs, pixel_stride: ps }
    }
}

/// A value forced into `0..=255`.
pub open spec fn clamp_byte(v: int) -> u8 {
    if v < 0 {
        0
    } else if v > 255 {
        255
    } else {
        v as u8
    }
}

/// The byte offset of sample `(row, col)` in a plane.
pub open spec fn plane_offset(p: Plane, row: int, col: int) -> int {
    row * p.row_stride + col * p.pixel_stride
}

/// The preview pixel at `(x, y)` of a `dst_w` x `dst_h` preview taken from a
/// `src_w` x `src_h` YUV420 image: nearest source sample, chroma at half
/// resolution, integer BT.601 conversion. A pixel whose samples lie outside
/// a plane stays white.
pub open spec fn preview_pixel(
    yp: Plane,
    up: Plane,
    vp: Plane,
    src_w: int,
    src_h: int,
    dst_w: int,
    dst_h: int,
    x: int,
    y: int,
) -> Rgba8 {
    let sy = y * src_h / dst_h;
    let sx = x * src_w / dst_w;
    let yi = plane_offset(yp, sy, sx);
    let ui = plane_offset(up, sy / 2, sx / 2);
    let vi = plane_offset(vp, sy / 2, sx / 2);
    if yi < yp.data@.len() && ui < up.data@.len() && vi < vp.data@.len() {
        let luma = yp.data@[yi] as int;
        let u = up.data@[ui] as int - 128;
        let v = vp.data@[vi] as int - 128;
        (
            clamp_byte(luma + (v * 359) / 256),
            clamp_byte(luma - (u * 88) / 256 - (v * 183) / 256),
            clamp_byte(luma + (u * 454) / 256),
            255,
        )
    } else {
        (255, 255, 255, 255)
    }
}

/// The `k`-th byte of an RGBA pixel.
pub open spec fn rgba_byte(p: Rgba8, k: int) -> u8 {
    if k == 0 {
        p.0
    } else if k == 1 {
        p.1
    } else if k == 2 {
        p.2
    } else {
        p.3
    }
}

proof fn lemma_shr8_is_floor_div(a: i32)
    requires
        -200000 <= a <= 200000,
    ensures
        (a >> 8u32) as int == (a as int) / 256,
{
    assert((a >> 8u32) as int == (a as int) / 256) by (bit_vector)
        requires
            -200000 <= a <= 200000,
    ;
}

fn clamp_to_byte(v: i32) -> (b: u8)
    ensures
        b == clamp_byte(v as int),
{
    if v < 0 {
        0
    } else if v > 255 {
        255
    } else {
        v as u8
    }
}

/// The offset `row * row_stride + col * pixel_stride` when it lies below
/// `len`, computed without overflow.
fn sample_offset(row: usize, row_stride: usize, col: usize, pixel_stride: usize, len: usize) -> (res: Option<usize>)
    ensures
        res is Some <==> row * row_stride + col * pixel_stride < len,
        res matches Some(i) ==> i == row * row_stride + col * pixel_stride,
{
    proof {
        assert(row * row_stride >= 0 && col * pixel_stride >= 0) by (nonlinear_arith);
    }
    let a = match row.checked_mul(row_stride) {
        Some(a) => a,
        None => return None,
    };
    let b = match col.checked_mul(pixel_stride) {
        Some(b) => b,
        None => return None,
    };
    let i = match a.checked_add(b) {
        Some(i) => i,
        None => return None,
    };
    if i < len {
        Some(i)
    } else {
        None
    }
}

/// The preview pixel at `(x, y)`.
fn preview_sample(
    yp: &Plane,
    up: &Plane,
    vp: &Plane,
    src_w: u32,
    src_h: u32,
    dst_w: u32,
    dst_h: u32,
    x: u32,
    y: u32,
) -> (px: Rgba8)
    requires
        x < dst_w,
        y < dst_h,
        (dst_h - 1) * src_h <= u32::MAX,
        (dst_w - 1) * src_w <= u32::MAX,
    ensures
        px == preview_pixel(*yp, *up, *vp, src_w as int, src_h as int, dst_w as int, dst_h as int, x as int, y as int),
{
    proof {
        assert(y * src_h <= (dst_h - 1) * src_h) by (nonlinear_arith)
            requires
                y < dst_h,
        ;
        assert(x * src_w <= (dst_w - 1) * src_w) by (nonlinear_arith)
            requires
                x < dst_w,
        ;
        assert(0 <= (y as int) * (src_h as int) && 0 <= (x as int) * (src_w as int)) by (nonlinear_arith);
    }
    let sy = (y * src_h / dst_h) as usize;
    let sx = (x * src_w / dst_w) as usize;
    let uv_row = sy / 2;
    let uv_col = sx / 2;
    let yi = sample_offset(sy, yp.row_stride, sx, yp.pixel_stride, yp.data.len());
    let ui = sample_offset(uv_row, up.row_stride, uv_col, up.pixel_stride, up.data.len());
    let vi = sample_offset(uv_row, vp.row_stride, uv_col, vp.pixel_stride, vp.data.len());
    if yi.is_none() || ui.is_none() || vi.is_none() {
        return (255, 255, 255, 255);
    }
    let yi = yi.unwrap();
    let ui = ui.unwrap();
    let vi = vi.unwrap();
    let luma = yp.data[yi] as i32;
    let u = up.data[ui] as i32 - 128;
    let v = vp.data[vi] as i32 - 128;
    proof {
        lemma_shr8_is_floor_div((v * 359) as i32);
        lemma_shr8_is_floor_div((u * 88) as i32);
        lemma_shr8_is_floor_div((v * 183) as i32);
        lemma_shr8_is_floor_div((u * 454) as i32);
    }
    let r = clamp_to_byte(luma + (v * 359 >> 8));
    let g = clamp_to_byte(luma - (u * 88 >> 8) - (v * 183 >> 8));
    let b = clamp_to_byte(luma + (u * 454 >> 8));
    (r, g, b, 255)
}

proof fn lemma_pixel_index_below(yy: int, xx: int, k: int, y: int, x: int, w: int)
    requires
        0 <= xx < w,
        0 <= k < 4,
        0 <= yy,
        0 <= x,
        yy < y || (yy == y && xx < x),
    ensures
        0 <= (yy * w + xx) * 4 + k < (y * w + x) * 4,
{
    if yy < y {
        assert((yy * w + xx) * 4 + k < (y * w + x) * 4) by (nonlinear_arith)
            requires
                0 <= xx < w,
                0 <= k < 4,
                yy < y,
                0 <= x,
        ;
    }
    assert(0 <= (yy * w + xx) * 4 + k) by (nonlinear_arith)
        requires
            0 <= xx,
            0 <= k,
            0 <= yy,
            0 <= w,
    ;
}

/// Converts a YUV420 camera image to a `dst_w` x `dst_h` RGBA preview.
pub fn yuv_to_preview_rgba(
    yp: &Plane,
    up: &Plane,
    vp: &Plane,
    src_w: u32,
    src_h: u32,
    dst_w: u32,
    dst_h: u32,
) -> (out: Vec<u8>)
    requires
        dst_w * dst_h * 4 <= u32::MAX,
        (dst_h - 1) * src_h <= u32::MAX,
        (dst_w - 1) * src_w <= u32::MAX,
    ensures
        out@.len() == dst_w * dst_h * 4,
        forall|y: int, x: int, k: int|
            0 <= y < dst_h && 0 <= x < dst_w && 0 <= k < 4 ==> out@[(y * dst_w + x) * 4 + k] == #[trigger] rgba_byte(
                preview_pixel(*yp, *up, *vp, src_w as int, src_h as int, dst_w as int, dst_h as int, x, y),
                k,
            ),
{
    let ghost sw = src_w as int;
    let ghost sh = src_h as int;
    let ghost dw = dst_w as int;
    let ghost dh = dst_h as int;
    let mut out: Vec<u8> = Vec::new();
    let mut y: u32 = 0;
    while y < dst_h
        invariant
            y <= dst_h,
            dw == dst_w,
            dh == dst_h,
            sw == src_w,
            sh == src_h,
            dst_w * dst_h * 4 <= u32::MAX,
            (dst_h - 1) * src_h <= u32::MAX,
            (dst_w - 1) * src_w <= u32::MAX,
            out@.len() == (y * dw) * 4,
            forall|yy: int, xx: int, k: int|
                0 <= yy < y && 0 <= xx < dw && 0 <= k < 4 ==> out@[(yy * dw + xx) * 4 + k] == #[trigger] rgba_byte(
                    preview_pixel(*yp, *up, *vp, sw, sh, dw, dh, xx, yy),
                    k,
                ),
        decreases dst_h - y,
    {
        let mut x: u32 = 0;
        while x < dst_w
            invariant
                y < dst_h,
                x <= dst_w,
                dw == dst_w,
                dh == dst_h,
                sw == src_w,
                sh == src_h,
                dst_w * dst_h * 4 <= u32::MAX,
                (dst_h - 1) * src_h <= u32::MAX,
                (dst_w - 1) * src_w <= u32::MAX,
                out@.len() == (y * dw + x) * 4,
                forall|yy: int, xx: int, k: int|
                    0 <= xx < dw && 0 <= k < 4 && (0 <= yy < y || (yy == y && xx < x)) ==> out@[(yy * dw + xx)
                        * 4 + k] == #[trigger] rgba_byte(preview_pixel(*yp, *up, *vp, sw, sh, dw, dh, xx, yy), k),
            decreases dst_w - x,
        {
            let px = preview_sample(yp, up, vp, src_w, src_h, dst_w, dst_h, x, y);
            let ghost before = out@;
            out.push(px.0);
            out.push(px.1);
            out.push(px.2);
            out.push(px.3);
            proof {
                assert forall|yy: int, xx: int, k: int|
                    0 <= xx < dw && 0 <= k < 4 && (0 <= yy < y || (yy == y && xx < x + 1)) implies out@[(yy * dw
                        + xx) * 4 + k] == #[trigger] rgba_byte(preview_pixel(*yp, *up, *vp, sw, sh, dw, dh, xx, yy), k) by {
                    if yy == y && xx == x {
                        assert((yy * dw + xx) * 4 + k == (y * dw + x) * 4 + k);
                    } else {
                        lemma_pixel_index_below(yy, xx, k, y as int, x as int, dw);
                        assert(out@[(yy * dw + xx) * 4 + k] == before[(yy * dw + xx) * 4 + k]);
                    }
                }
            }
            x = x + 1;
        }
        proof {
            assert((y * dw + dw) * 4 == ((y + 1) * dw) * 4) by (nonlinear_arith);
        }
        y = y + 1;
    }
    assert((dh * dw) * 4 == dst_w * dst_h * 4) by (nonlinear_arith)
        requires
            dh == dst_h,
            dw == dst_w,
    ;
    out
}


/// The number of bytes a luma plane must hold to yield a packed
/// `w` x `h` image with row stride `rs`.
pub open spec fn luma_bytes_needed(w: int, h: int, rs: int) -> int {
    if rs == w {
        w * h
    } else {
        (if h > 0 { h - 1 } else { 0 }) * rs + w
    }
}

/// The bytes a luma plane needs: for an unpadded plane (stride equal to the
/// width) exactly `w * h`; with at least one row, up to the end of the last
/// row, `(h - 1) * rs + w`.
pub proof fn lemma_luma_bytes_needed_shape(w: int, h: int, rs: int)
    requires
        w >= 0,
        h >= 0,
    ensures
        rs == w ==> luma_bytes_needed(w, h, rs) == w * h,
        h > 0 ==> luma_bytes_needed(w, h, rs) == (h - 1) * rs + w,
{
    if rs == w && h > 0 {
        assert((h - 1) * w + w == w * h) by (nonlinear_arith);
    }
}

/// The row stride after raising it to at least 1.
pub open spec fn effective_stride(row_stride: i32) -> int {
    if row_stride < 1 { 1 } else { row_stride as int }
}

proof fn lemma_row_major_below(rr: int, cc: int, r: int, c: int, w: int)
    requires
        0 <= cc < w,
        0 <= rr,
        0 <= c,
        rr < r || (rr == r && cc < c),
    ensures
        0 <= rr * w + cc < r * w + c,
{
    if rr < r {
        assert(rr * w + cc < r * w + c) by (nonlinear_arith)
            requires
                0 <= cc < w,
                rr < r,
                0 <= c,
        ;
    }
    assert(0 <= rr * w + cc) by (nonlinear_arith)
        requires
            0 <= cc,
            0 <= rr,
            0 <= w,
    ;
}

proof fn lemma_strided_in_bounds(r: int, c: int, w: int, h: int, rs: int)
    requires
        0 <= r < h,
        0 <= c < w,
        rs >= 1,
    ensures
        0 <= r * rs + c < luma_bytes_needed(w, h, rs),
{
    if rs == w {
        assert(0 <= r * rs + c < w * h) by (nonlinear_arith)
            requires
                0 <= r < h,
                0 <= c < w,
                rs == w,
        ;
    } else {
        assert(0 <= r * rs + c < (h - 1) * rs + w) by (nonlinear_arith)
            requires
                0 <= r < h,
                0 <= c < w,
                rs >= 1,
        ;
    }
}

/// Packs the luma plane of a camera image into `width * height` bytes,
/// dropping the padding at the end of each row. `None` when the plane is too
/// short for the size and stride.
pub fn extract_y_plane(src: &[u8], width: u32, height: u32, row_stride: i32) -> (res: Option<Vec<u8>>)
    requires
        width * height <= usize::MAX,
        luma_bytes_needed(width as int, height as int, effective_stride(row_stride)) <= usize::MAX,
    ensures
        res is Some <==> src@.len() >= luma_bytes_needed(width as int, height as int, effective_stride(row_stride)),
        effective_stride(row_stride) == width ==> (res is Some <==> src@.len() >= width * height),
        height > 0 ==> (res is Some <==> src@.len() >= (height - 1) * effective_stride(row_stride) + width),
        res matches Some(out) ==> {
            &&& out@.len() == width * height
            &&& forall|r: int, c: int|
                0 <= r < height && 0 <= c < width ==> #[trigger] out@[r * width + c] == src@[r
                    * effective_stride(row_stride) + c]
        },
{
    proof {
        lemma_luma_bytes_needed_shape(width as int, height as int, effective_stride(row_stride));
    }
    let rs: usize = if row_stride < 1 { 1 } else { row_stride as usize };
    let w = width as usize;
    let h = height as usize;
    let ghost rsi = rs as int;
    let needed: usize = if rs == w {
        w * h
    } else {
        proof {
            assert(0 <= (if h > 0 { h - 1 } else { 0 }) * rs) by (nonlinear_arith);
        }
        h.saturating_sub(1) * rs + w
    };
    if src.len() < needed {
        return None;
    }
    let mut out: Vec<u8> = Vec::new();
    let mut r: usize = 0;
    while r < h
        invariant
            r <= h,
            w == width,
            h == height,
            rsi == rs,
            rs >= 1,
            rsi == effective_stride(row_stride),
            needed == luma_bytes_needed(w as int, h as int, rsi),
            src@.len() >= needed,
            out@.len() == r * w,
            forall|rr: int, cc: int| 0 <= rr < r && 0 <= cc < w ==> #[trigger] out@[rr * w + cc] == src@[rr * rsi + cc],
        decreases h - r,
    {
        let mut c: usize = 0;
        while c < w
            invariant
                r < h,
                c <= w,
                w == width,
                h == height,
                rsi == rs,
                rs >= 1,
                needed == luma_bytes_needed(w as int, h as int, rsi),
                src@.len() >= needed,
                out@.len() == r * w + c,
                forall|rr: int, cc: int|
                    0 <= cc < w && (0 <= rr < r || (rr == r && cc < c)) ==> #[trigger] out@[rr * w + cc] == src@[rr
                        * rsi + cc],
            decreases w - c,
        {
            proof {
                lemma_strided_in_bounds(r as int, c as int, w as int, h as int, rsi);
            }
            let ghost before = out@;
            out.push(src[r * rs + c]);
            proof {
                assert forall|rr: int, cc: int|
                    0 <= cc < w && (0 <= rr < r || (rr == r && cc < c + 1)) implies #[trigger] out@[rr * w + cc]
                        == src@[rr * rsi + cc] by {
                    if rr == r && cc == c {
                        assert(rr * w + cc == r * w + c);
                    } else {
                        lemma_row_major_below(rr, cc, r as int, c as int, w as int);
                        assert(out@[rr * w + cc] == before[rr * w + cc]);
                    }
                }
            }
            c = c + 1;
        }
        proof {
            assert(r * w + w == (r + 1) * w) by (nonlinear_arith);
        }
        r = r + 1;
    }
    assert(h * w == width * height) by (nonlinear_arith)
        requires
            h == height,
            w == width,
    ;
    Some(out)
}

proof fn lemma_quarter_turn_index(row: int, col: int, w: int, h: int)
    requires
        0 <= row < h,
        0 <= col < w,
    ensures
        0 <= col * h + (h - 1 - row) < w * h,
        0 <= row * w + col < w * h,
{
    assert(0 <= col * h + (h - 1 - row) < w * h) by (nonlinear_arith)
        requires
            0 <= row < h,
            0 <= col < w,
    ;
    assert(0 <= row * w + col < w * h) by (nonlinear_arith)
        requires
            0 <= row < h,
            0 <= col < w,
    ;
}

proof fn lemma_quarter_turn_injective(r1: int, c1: int, r2: int, c2: int, h: int)
    requires
        0 <= r1 < h,
        0 <= r2 < h,
        0 <= c1,
        0 <= c2,
        c1 * h + (h - 1 - r1) == c2 * h + (h - 1 - r2),
    ensures
        r1 == r2,
        c1 == c2,
{
    if c1 < c2 {
        assert(c1 * h + (h - 1 - r1) < c2 * h + (h - 1 - r2)) by (nonlinear_arith)
            requires
                0 <= r1 < h,
                0 <= r2 < h,
                c1 < c2,
        ;
    } else if c2 < c1 {
        assert(c2 * h + (h - 1 - r2) < c1 * h + (h - 1 - r1)) by (nonlinear_arith)
            requires
                0 <= r1 < h,
                0 <= r2 < h,
                c2 < c1,
        ;
    }
}

/// Turns a `w` x `h` luma image a quarter turn counter-clockwise into an
/// `h` x `w` image: source pixel `(row, col)` lands at row `col`, column
/// `h - 1 - row`.
pub fn rotate_luma_ccw(y: &[u8], width: u32, height: u32) -> (out: Vec<u8>)
    requires
        width * height <= usize::MAX,
        y@.len() >= width * height,
    ensures
        out@.len() == width * height,
        forall|row: int, col: int|
            0 <= row < height && 0 <= col < width ==> #[trigger] out@[col * height + (height - 1 - row)] == y@[row * width
                + col],
{
    let w = width as usize;
    let h = height as usize;
    let mut portrait: Vec<u8> = vec![0u8; w * h];
    let mut row: usize = 0;
    while row < h
        invariant
            row <= h,
            w == width,
            h == height,
            w * h <= usize::MAX,
            y@.len() >= w * h,
            portrait@.len() == w * h,
            forall|rr: int, cc: int|
                0 <= rr < row && 0 <= cc < w ==> #[trigger] portrait@[cc * h + (h - 1 - rr)] == y@[rr * w + cc],
        decreases h - row,
    {
        let mut col: usize = 0;
        while col < w
            invariant
                row < h,
                col <= w,
                w == width,
                h == height,
                w * h <= usize::MAX,
                y@.len() >= w * h,
                portrait@.len() == w * h,
                forall|rr: int, cc: int|
                    0 <= cc < w && (0 <= rr < row || (rr == row && cc < col)) ==> #[trigger] portrait@[cc * h + (h - 1
                        - rr)] == y@[rr * w + cc],
            decreases w - col,
        {
            proof {
                lemma_quarter_turn_index(row as int, col as int, w as int, h as int);
            }
            let ghost before = portrait@;
            let dst = col * h + (h - 1 - row);
            portrait.set(dst, y[row * w + col]);
            proof {
                assert forall|rr: int, cc: int|
                    0 <= cc < w && (0 <= rr < row || (rr == row && cc < col + 1)) implies #[trigger] portrait@[cc * h
                        + (h - 1 - rr)] == y@[rr * w + cc] by {
                    if !(rr == row && cc == col) {
                        lemma_quarter_turn_index(rr, cc, w as int, h as int);
                        if cc * h + (h - 1 - rr) == dst as int {
                            lemma_quarter_turn_injective(rr, cc, row as int, col as int, h as int);
                        }
                        assert(portrait@[cc * h + (h - 1 - rr)] == before[cc * h + (h - 1 - rr)]);
                    }
                }
            }
            col = col + 1;
        }
        row = row + 1;
    }
    portrait
}

} // verus!
