//! The signature raster: an RGBA image of the `image` crate on which the
//! strokes of a signature are drawn as Bresenham lines and which is encoded
//! as PNG.

use vstd::prelude::*;

verus! {

/// An RGBA8 colour.
pub type Rgba8 = (u8, u8, u8, u8);

/// The signature raster, an `image::RgbaImage` of fixed size.
#[verifier::external_body]
pub struct SignatureRaster {
    img: image::RgbaImage,
}

/// The errors of `image`, carried through unchanged.
#[verifier::external_type_specification]
#[verifier::external_body]
pub struct ExImageError(image::ImageError);

/// The pixels of a raster, row-major.
pub uninterp spec fn raster_pixels(raster: SignatureRaster) -> Seq<Rgba8>;

/// The width and height a raster was made with.
pub uninterp spec fn raster_dims(raster: SignatureRaster) -> (u32, u32);

/// What `PngEncoder::write_image` produces for an RGBA8 image of the given
/// size and pixels: `None` where it fails.
pub uninterp spec fn png_encoding(width: u32, height: u32, pixels: Seq<Rgba8>) -> Option<Seq<u8>>;

/// A raster whose pixel sequence has one entry per pixel.
pub open spec fn raster_wf(raster: SignatureRaster) -> bool {
    raster_pixels(raster).len() == raster_dims(raster).0 * raster_dims(raster).1
}

/// `ImageBuffer::from_pixel`: a `width` x `height` image filled with one
/// colour. It panics when the byte buffer would exceed `isize::MAX`.
#[verifier::external_body]
fn raster_from_pixel(width: u32, height: u32, color: Rgba8) -> (raster: SignatureRaster)
    requires
        4 * width * height <= isize::MAX,
    ensures
        raster_dims(raster) == (width, height),
        raster_pixels(raster) == Seq::new((width * height) as nat, |i: int| color),
{
    SignatureRaster {
        img: image::RgbaImage::from_pixel(width, height, image::Rgba([color.0, color.1, color.2, color.3])),
    }
}

/// `ImageBuffer::put_pixel`: overwrites the pixel at `(x, y)`; it panics
/// outside the image.
#[verifier::external_body]
fn raster_put_pixel(raster: &mut SignatureRaster, x: u32, y: u32, color: Rgba8)
    requires
        x < raster_dims(*old(raster)).0,
        y < raster_dims(*old(raster)).1,
    ensures
        raster_dims(*final(raster)) == raster_dims(*old(raster)),
        raster_pixels(*final(raster)) == raster_pixels(*old(raster)).update(
            y * raster_dims(*old(raster)).0 + x,
            color,
        ),
{
    raster.img.put_pixel(x, y, image::Rgba([color.0, color.1, color.2, color.3]));
}

/// `ImageBuffer::width`.
#[verifier::external_body]
fn raster_width(raster: &SignatureRaster) -> (w: u32)
    ensures
        w == raster_dims(*raster).0,
{
    raster.img.width()
}

/// `ImageBuffer::height`.
#[verifier::external_body]
fn raster_height(raster: &SignatureRaster) -> (h: u32)
    ensures
        h == raster_dims(*raster).1,
{
    raster.img.height()
}

/// `ImageBuffer::get_pixel`: the pixel at `(x, y)`; it panics outside the
/// image.
#[verifier::external_body]
fn raster_get_pixel(raster: &SignatureRaster, x: u32, y: u32) -> (c: Rgba8)
    requires
        x < raster_dims(*raster).0,
        y < raster_dims(*raster).1,
    ensures
        c == raster_pixels(*raster)[y * raster_dims(*raster).0 + x],
{
    let p = raster.img.get_pixel(x, y);
    (p.0[0], p.0[1], p.0[2], p.0[3])
}

/// `ImageBuffer::write_with_encoder` with a `PngEncoder` writing into memory.
#[verifier::external_body]
fn raster_write_png(raster: &SignatureRaster) -> (res: Result<Vec<u8>, image::ImageError>)
    ensures
        res is Ok <==> png_encoding(raster_dims(*raster).0, raster_dims(*raster).1, raster_pixels(*raster)) is Some,
        res matches Ok(bytes) ==> png_encoding(
            raster_dims(*raster).0,
            raster_dims(*raster).1,
            raster_pixels(*raster),
        ) == Some(bytes@),
{
    let mut out: Vec<u8> = Vec::new();
    raster.img.write_with_encoder(image::codecs::png::PngEncoder::new(&mut out))?;
    Ok(out)
}

/// The width and height of a raster.
pub fn raster_size(raster: &SignatureRaster) -> (size: (u32, u32))
    ensures
        size == raster_dims(*raster),
{
    (raster_width(raster), raster_height(raster))
}

/// The pixel at `(x, y)` of a raster.
pub fn pixel_at(raster: &SignatureRaster, x: u32, y: u32) -> (c: Rgba8)
    requires
        x < raster_dims(*raster).0,
        y < raster_dims(*raster).1,
    ensures
        c == raster_pixels(*raster)[y * raster_dims(*raster).0 + x],
{
    raster_get_pixel(raster, x, y)
}

pub open spec fn abs_int(v: int) -> int {
    if v < 0 { -v } else { v }
}

pub open spec fn step_sign(from: int, to: int) -> int {
    if from < to { 1 } else { -1 }
}

/// The Bresenham error term after `ax` steps along x and `ay` along y.
pub open spec fn line_err(dx: int, dy: int, ax: int, ay: int) -> int {
    dx * (1 + ay) - dy * (1 + ax)
}

/// The offsets `(ax, ay)` visited by the Bresenham walk over a box of
/// `dx` by `dy` steps, from `(ax, ay)` on.
pub open spec fn line_offsets(dx: int, dy: int, ax: int, ay: int) -> Seq<(int, int)>
    decreases (dx - ax) + (dy - ay),
{
    if !(0 <= ax <= dx && 0 <= ay <= dy) {
        Seq::empty()
    } else if ax == dx && ay == dy {
        seq![(ax, ay)]
    } else {
        let e2 = 2 * line_err(dx, dy, ax, ay);
        let nax = if e2 >= -dy { ax + 1 } else { ax };
        let nay = if e2 <= dx { ay + 1 } else { ay };
        if nax <= dx && nay <= dy && nax + nay > ax + ay {
            seq![(ax, ay)].add(line_offsets(dx, dy, nax, nay))
        } else {
            seq![(ax, ay)]
        }
    }
}

/// The points of the line from `(x0, y0)` to `(x1, y1)` in drawing order.
pub open spec fn line_points(x0: int, y0: int, x1: int, y1: int) -> Seq<(int, int)> {
    let sx = step_sign(x0, x1);
    let sy = step_sign(y0, y1);
    line_offsets(abs_int(x1 - x0), abs_int(y1 - y0), 0, 0).map_values(
        |o: (int, int)| (x0 + sx * o.0, y0 + sy * o.1),
    )
}

/// Paints one pixel when it lies inside a `w` x `h` image.
pub open spec fn paint_pixel(pixels: Seq<Rgba8>, w: int, h: int, p: (int, int), c: Rgba8) -> Seq<Rgba8> {
    if 0 <= p.0 < w && 0 <= p.1 < h {
        pixels.update(p.1 * w + p.0, c)
    } else {
        pixels
    }
}

/// Paints the given points in order, skipping those outside the image.
pub open spec fn paint_points(pixels: Seq<Rgba8>, w: int, h: int, pts: Seq<(int, int)>, c: Rgba8) -> Seq<Rgba8>
    decreases pts.len(),
{
    if pts.len() == 0 {
        pixels
    } else {
        paint_pixel(paint_points(pixels, w, h, pts.drop_last(), c), w, h, pts.last(), c)
    }
}

/// In the walk, whenever the target is not reached, at least one axis
/// advances and neither passes its end.
proof fn lemma_line_step(dx: int, dy: int, ax: int, ay: int)
    requires
        0 <= ax <= dx,
        0 <= ay <= dy,
        !(ax == dx && ay == dy),
    ensures
        ax == dx ==> 2 * line_err(dx, dy, ax, ay) < -dy,
        ay == dy ==> 2 * line_err(dx, dy, ax, ay) > dx,
{
    let e = line_err(dx, dy, ax, ay);
    if ax == dx {
        assert(e == dx * (1 + ay - dy) - dy) by (nonlinear_arith)
            requires
                e == dx * (1 + ay) - dy * (1 + ax),
                ax == dx,
        ;
        assert(dx * (1 + ay - dy) <= 0) by (nonlinear_arith)
            requires
                dx >= 0,
                1 + ay - dy <= 0,
        ;
    }
    if ay == dy {
        assert(e == dx + dy * (dx - 1 - ax)) by (nonlinear_arith)
            requires
                e == dx * (1 + ay) - dy * (1 + ax),
                ay == dy,
        ;
        assert(dy * (dx - 1 - ax) >= 0) by (nonlinear_arith)
            requires
                dy >= 0,
                dx - 1 - ax >= 0,
        ;
    }
}

/// Away from the end of the walk, at least one axis advances, neither
/// passes its end, and `line_offsets` unfolds once.
pub proof fn lemma_line_offsets_step(dx: int, dy: int, ax: int, ay: int)
    requires
        0 <= ax <= dx,
        0 <= ay <= dy,
        !(ax == dx && ay == dy),
    ensures
        ({
            let e2 = 2 * line_err(dx, dy, ax, ay);
            let nax = if e2 >= -dy { ax + 1 } else { ax };
            let nay = if e2 <= dx { ay + 1 } else { ay };
            &&& nax <= dx
            &&& nay <= dy
            &&& nax + nay > ax + ay
            &&& line_offsets(dx, dy, ax, ay) == seq![(ax, ay)].add(line_offsets(dx, dy, nax, nay))
        }),
{
    lemma_line_step(dx, dy, ax, ay);
}

/// Bounds on the error term inside the walk's box.
proof fn lemma_line_err_bounds(dx: int, dy: int, ax: int, ay: int)
    requires
        0 <= ax <= dx,
        0 <= ay <= dy,
    ensures
        -(dy * (1 + dx)) <= line_err(dx, dy, ax, ay) <= dx * (1 + dy),
{
    assert(dx * (1 + ay) <= dx * (1 + dy)) by (nonlinear_arith)
        requires
            0 <= ay <= dy,
            dx >= 0,
    ;
    assert(dy * (1 + ax) <= dy * (1 + dx)) by (nonlinear_arith)
        requires
            0 <= ax <= dx,
            dy >= 0,
    ;
    assert(dx * (1 + ay) >= 0) by (nonlinear_arith)
        requires
            0 <= ay,
            dx >= 0,
    ;
    assert(dy * (1 + ax) >= 0) by (nonlinear_arith)
        requires
            0 <= ax,
            dy >= 0,
    ;
}

/// A pixel inside a `w` x `h` grid has a row-major index below `w * h`.
pub proof fn lemma_index_in_grid(x: int, y: int, w: int, h: int)
    requires
        0 <= x < w,
        0 <= y < h,
    ensures
        0 <= y * w + x < w * h,
{
    assert(0 <= y * w + x < w * h) by (nonlinear_arith)
        requires
            0 <= x < w,
            0 <= y < h,
    ;
}

proof fn lemma_err_step_x(dx: int, dy: int, ax: int, ay: int)
    ensures
        line_err(dx, dy, ax + 1, ay) == line_err(dx, dy, ax, ay) - dy,
{
    assert(dy * (1 + (ax + 1)) == dy * (1 + ax) + dy) by (nonlinear_arith);
}

proof fn lemma_err_step_y(dx: int, dy: int, ax: int, ay: int)
    ensures
        line_err(dx, dy, ax, ay + 1) == line_err(dx, dy, ax, ay) + dx,
{
    assert(dx * (1 + (ay + 1)) == dx * (1 + ay) + dx) by (nonlinear_arith);
}

proof fn lemma_product_bound(a: int, b: int)
    requires
        0 <= a <= 0x1_0000_0000,
        0 <= b <= 0x1_0000_0000,
    ensures
        a * (1 + b) <= 0x1_0000_0001_0000_0000,
{
    assert(a * (1 + b) <= 0x1_0000_0000 * (1 + 0x1_0000_0000)) by (nonlinear_arith)
        requires
            0 <= a <= 0x1_0000_0000,
            0 <= b <= 0x1_0000_0000,
    ;
}

/// Draws the line from `(x0, y0)` to `(x1, y1)` with the all-octant
/// Bresenham walk; points outside the image are skipped.
pub fn draw_line_rgba(img: &mut SignatureRaster, x0: i32, y0: i32, x1: i32, y1: i32, color: Rgba8)
    requires
        raster_wf(*old(img)),
    ensures
        raster_dims(*final(img)) == raster_dims(*old(img)),
        raster_wf(*final(img)),
        raster_pixels(*final(img)) == paint_points(
            raster_pixels(*old(img)),
            raster_dims(*old(img)).0 as int,
            raster_dims(*old(img)).1 as int,
            line_points(x0 as int, y0 as int, x1 as int, y1 as int),
            color,
        ),
{
    let w = raster_width(img);
    let h = raster_height(img);
    let ghost old_pixels = raster_pixels(*img);
    let tx = x1 as i64;
    let ty = y1 as i64;
    let mut x: i64 = x0 as i64;
    let mut y: i64 = y0 as i64;
    let dx: i64 = if tx - x < 0 { x - tx } else { tx - x };
    let dy_abs: i64 = if ty - y < 0 { y - ty } else { ty - y };
    let dy: i64 = -dy_abs;
    let sx: i64 = if x < tx { 1 } else { -1 };
    let sy: i64 = if y < ty { 1 } else { -1 };
    let mut err: i128 = (dx as i128) + (dy as i128);
    let ghost full = line_offsets(dx as int, dy_abs as int, 0, 0);
    let ghost sxi = sx as int;
    let ghost syi = sy as int;
    let ghost pts = full.map_values(|o: (int, int)| (x0 + sxi * o.0, y0 + syi * o.1));
    let ghost mut ax: int = 0;
    let ghost mut ay: int = 0;
    let ghost mut k: int = 0;
    assert(pts =~= line_points(x0 as int, y0 as int, x1 as int, y1 as int));
    assert(line_err(dx as int, dy_abs as int, 0, 0) == dx - dy_abs) by (nonlinear_arith);
    assert(full.subrange(0, full.len() as int) =~= full);
    assert(pts.take(0) =~= Seq::<(int, int)>::empty());
    loop
        invariant_except_break
            k < full.len(),
            full.subrange(k, full.len() as int) == line_offsets(dx as int, dy_abs as int, ax, ay),
        invariant
            w == raster_dims(*img).0,
            h == raster_dims(*img).1,
            raster_dims(*img) == raster_dims(*old(img)),
            raster_wf(*img),
            old_pixels == raster_pixels(*old(img)),
            raster_wf(*old(img)),
            tx == x1 as i64,
            ty == y1 as i64,
            dx == abs_int(x1 - x0),
            dy_abs == abs_int(y1 - y0),
            dy == -dy_abs,
            sxi == sx,
            syi == sy,
            sx == step_sign(x0 as int, x1 as int),
            sy == step_sign(y0 as int, y1 as int),
            0 <= ax <= dx,
            0 <= ay <= dy_abs,
            x == x0 + sx * ax,
            y == y0 + sy * ay,
            err == line_err(dx as int, dy_abs as int, ax, ay),
            full == line_offsets(dx as int, dy_abs as int, 0, 0),
            pts == full.map_values(|o: (int, int)| (x0 + sxi * o.0, y0 + syi * o.1)),
            0 <= k <= full.len(),
            raster_pixels(*img) == paint_points(old_pixels, w as int, h as int, pts.take(k), color),
        ensures
            raster_dims(*img) == raster_dims(*old(img)),
            raster_wf(*img),
            raster_pixels(*img) == paint_points(old_pixels, w as int, h as int, pts, color),
        decreases (dx - ax) + (dy_abs - ay),
    {
        proof {
            // the current offset heads the remaining walk
            if ax == dx && ay == dy_abs {
                assert(line_offsets(dx as int, dy_abs as int, ax, ay) == seq![(ax, ay)]);
            } else {
                lemma_line_offsets_step(dx as int, dy_abs as int, ax, ay);
            }
            assert(full.subrange(k, full.len() as int)[0] == (ax, ay));
            assert(full[k] == (ax, ay));
            assert(pts[k] == (x as int, y as int));
            assert(pts.take(k + 1).drop_last() =~= pts.take(k));
            assert(pts.take(k + 1).last() == pts[k]);
        }
        if x >= 0 && y >= 0 && x < w as i64 && y < h as i64 {
            proof {
                lemma_index_in_grid(x as int, y as int, w as int, h as int);
            }
            raster_put_pixel(img, x as u32, y as u32, color);
        }
        proof {
            k = k + 1;
        }
        if x == tx && y == ty {
            proof {
                assert(ax == dx && ay == dy_abs) by (nonlinear_arith)
                    requires
                        x == x0 + sx * ax,
                        y == y0 + sy * ay,
                        x == x1,
                        y == y1,
                        sx == step_sign(x0 as int, x1 as int),
                        sy == step_sign(y0 as int, y1 as int),
                        dx == abs_int(x1 - x0),
                        dy_abs == abs_int(y1 - y0),
                        ax >= 0,
                        ay >= 0,
                ;
                assert(line_offsets(dx as int, dy_abs as int, ax, ay) == seq![(ax, ay)]);
                assert(full.len() == k);
                assert(pts.take(k) =~= pts);
            }
            break;
        }
        proof {
            assert(!(ax == dx && ay == dy_abs)) by (nonlinear_arith)
                requires
                    x == x0 + sx * ax,
                    y == y0 + sy * ay,
                    !(x == x1 && y == y1),
                    sx == step_sign(x0 as int, x1 as int),
                    sy == step_sign(y0 as int, y1 as int),
                    dx == abs_int(x1 - x0),
                    dy_abs == abs_int(y1 - y0),
            ;
            lemma_line_offsets_step(dx as int, dy_abs as int, ax, ay);
            lemma_line_err_bounds(dx as int, dy_abs as int, ax, ay);
            lemma_product_bound(dx as int, dy_abs as int);
            lemma_product_bound(dy_abs as int, dx as int);
        }
        let e2: i128 = 2 * err;
        let ghost nax = if e2 >= dy as i128 { ax + 1 } else { ax };
        let ghost nay = if e2 <= dx as i128 { ay + 1 } else { ay };
        if e2 >= dy as i128 {
            proof {
                lemma_err_step_x(dx as int, dy_abs as int, ax, ay);
            }
            err = err + dy as i128;
            x = x + sx;
            proof {
                ax = ax + 1;
            }
        }
        if e2 <= dx as i128 {
            proof {
                lemma_err_step_y(dx as int, dy_abs as int, ax, ay);
            }
            err = err + dx as i128;
            y = y + sy;
            proof {
                ay = ay + 1;
            }
        }
        proof {
            assert(ax == nax && ay == nay);
            assert(full.subrange(k, full.len() as int) =~= full.subrange(k - 1, full.len() as int).drop_first());
        }
    }
}


/// The colour of an empty canvas.
pub const PAPER: Rgba8 = (255, 255, 255, 255);

/// The colour of the signature strokes.
pub const INK: Rgba8 = (20, 20, 20, 255);

/// Why a signature could not be turned into an image.
#[derive(Clone, Copy, Debug, PartialEq, Eq, Structural)]
pub enum SignatureSaveError {
    /// No stroke holds a point.
    NoSignature,
    /// The PNG encoder refused the image.
    Encode,
}

/// The strokes as sequences of points.
pub open spec fn strokes_view(strokes: Seq<Vec<(i32, i32)>>) -> Seq<Seq<(i32, i32)>> {
    strokes.map_values(|s: Vec<(i32, i32)>| s@)
}

/// Whether some stroke holds at least one point.
pub open spec fn has_ink(strokes: Seq<Seq<(i32, i32)>>) -> bool {
    exists|i: int| 0 <= i < strokes.len() && #[trigger] strokes[i].len() > 0
}

/// Paints the first `n` segments of a stroke; segment `i` joins point `i`
/// to point `i + 1`.
pub open spec fn paint_segments(
    pixels: Seq<Rgba8>,
    w: int,
    h: int,
    stroke: Seq<(i32, i32)>,
    n: int,
    c: Rgba8,
) -> Seq<Rgba8>
    decreases n,
{
    if n <= 0 {
        pixels
    } else {
        paint_points(
            paint_segments(pixels, w, h, stroke, n - 1, c),
            w,
            h,
            line_points(
                stroke[n - 1].0 as int,
                stroke[n - 1].1 as int,
                stroke[n].0 as int,
                stroke[n].1 as int,
            ),
            c,
        )
    }
}

/// Paints every segment of one stroke; a stroke of fewer than two points
/// paints nothing.
pub open spec fn paint_stroke(pixels: Seq<Rgba8>, w: int, h: int, stroke: Seq<(i32, i32)>, c: Rgba8) -> Seq<Rgba8> {
    paint_segments(pixels, w, h, stroke, stroke.len() - 1, c)
}

/// Paints the strokes in order.
pub open spec fn paint_strokes(pixels: Seq<Rgba8>, w: int, h: int, strokes: Seq<Seq<(i32, i32)>>, c: Rgba8) -> Seq<Rgba8>
    decreases strokes.len(),
{
    if strokes.len() == 0 {
        pixels
    } else {
        paint_stroke(paint_strokes(pixels, w, h, strokes.drop_last(), c), w, h, strokes.last(), c)
    }
}

/// A blank canvas of `w` x `h` pixels.
pub open spec fn blank_canvas(w: int, h: int) -> Seq<Rgba8> {
    Seq::new((w * h) as nat, |i: int| PAPER)
}

/// The image of a signature: its strokes in ink on a blank canvas.
pub open spec fn signature_pixels(w: int, h: int, strokes: Seq<Seq<(i32, i32)>>) -> Seq<Rgba8> {
    paint_strokes(blank_canvas(w, h), w, h, strokes, INK)
}

/// Whether any stroke holds a point.
pub fn has_nonempty_stroke(strokes: &Vec<Vec<(i32, i32)>>) -> (found: bool)
    ensures
        found == has_ink(strokes_view(strokes@)),
{
    let mut i: usize = 0;
    while i < strokes.len()
        invariant
            i <= strokes.len(),
            forall|j: int| 0 <= j < i ==> strokes@[j]@.len() == 0,
        decreases strokes.len() - i,
    {
        if strokes[i].len() > 0 {
            assert(strokes_view(strokes@)[i as int].len() > 0);
            return true;
        }
        i = i + 1;
    }
    assert forall|j: int| 0 <= j < strokes_view(strokes@).len() implies #[trigger] strokes_view(strokes@)[j].len() == 0 by {
        assert(strokes_view(strokes@)[j] == strokes@[j]@);
    }
    false
}

/// Draws every segment of one stroke.
fn draw_stroke(img: &mut SignatureRaster, stroke: &Vec<(i32, i32)>, color: Rgba8)
    requires
        raster_wf(*old(img)),
    ensures
        raster_dims(*final(img)) == raster_dims(*old(img)),
        raster_wf(*final(img)),
        raster_pixels(*final(img)) == paint_stroke(
            raster_pixels(*old(img)),
            raster_dims(*old(img)).0 as int,
            raster_dims(*old(img)).1 as int,
            stroke@,
            color,
        ),
{
    let ghost w = raster_dims(*img).0 as int;
    let ghost h = raster_dims(*img).1 as int;
    let ghost start = raster_pixels(*img);
    if stroke.len() < 2 {
        return;
    }
    let mut j: usize = 0;
    while j + 1 < stroke.len()
        invariant
            stroke.len() >= 2,
            j + 1 <= stroke.len(),
            raster_dims(*img) == raster_dims(*old(img)),
            w == raster_dims(*img).0,
            h == raster_dims(*img).1,
            start == raster_pixels(*old(img)),
            raster_wf(*img),
            raster_pixels(*img) == paint_segments(start, w, h, stroke@, j as int, color),
        decreases stroke.len() - j,
    {
        let p0 = stroke[j];
        let p1 = stroke[j + 1];
        draw_line_rgba(img, p0.0, p0.1, p1.0, p1.1, color);
        j = j + 1;
    }
}

/// Draws the strokes of a signature in ink on a blank `width` x `height`
/// canvas. Fails when no stroke holds a point.
pub fn render_signature(strokes: &Vec<Vec<(i32, i32)>>, width: u32, height: u32) -> (res: Result<SignatureRaster, SignatureSaveError>)
    requires
        4 * width * height <= isize::MAX,
    ensures
        res is Err <==> !has_ink(strokes_view(strokes@)),
        res matches Err(e) ==> e == SignatureSaveError::NoSignature,
        res matches Ok(r) ==> {
            &&& raster_dims(r) == (width, height)
            &&& raster_wf(r)
            &&& raster_pixels(r) == signature_pixels(width as int, height as int, strokes_view(strokes@))
        },
{
    if !has_nonempty_stroke(strokes) {
        return Err(SignatureSaveError::NoSignature);
    }
    let mut img = raster_from_pixel(width, height, PAPER);
    let ghost w = width as int;
    let ghost h = height as int;
    let ghost sv = strokes_view(strokes@);
    assert(raster_pixels(img) =~= blank_canvas(w, h));
    assert(sv.take(0) =~= Seq::<Seq<(i32, i32)>>::empty());
    let mut i: usize = 0;
    while i < strokes.len()
        invariant
            i <= strokes.len(),
            sv == strokes_view(strokes@),
            raster_dims(img) == (width, height),
            w == width as int,
            h == height as int,
            raster_wf(img),
            raster_pixels(img) == paint_strokes(blank_canvas(w, h), w, h, sv.take(i as int), INK),
        decreases strokes.len() - i,
    {
        draw_stroke(&mut img, &strokes[i], INK);
        proof {
            assert(sv.take(i + 1).drop_last() =~= sv.take(i as int));
            assert(sv.take(i + 1).last() == strokes@[i as int]@);
        }
        i = i + 1;
    }
    assert(sv.take(strokes.len() as int) =~= sv);
    Ok(img)
}

/// Encodes a raster as PNG.
pub fn encode_signature_png(raster: &SignatureRaster) -> (res: Result<Vec<u8>, SignatureSaveError>)
    ensures
        res matches Ok(bytes) ==> png_encoding(raster_dims(*raster).0, raster_dims(*raster).1, raster_pixels(*raster))
            == Some(bytes@),
        res matches Err(e) ==> e == SignatureSaveError::Encode && png_encoding(
            raster_dims(*raster).0,
            raster_dims(*raster).1,
            raster_pixels(*raster),
        ) is None,
{
    match raster_write_png(raster) {
        Ok(bytes) => Ok(bytes),
        Err(_) => Err(SignatureSaveError::Encode),
    }
}

/// The PNG image of a signature drawn on a `width` x `height` canvas.
pub fn signature_png(strokes: &Vec<Vec<(i32, i32)>>, width: u32, height: u32) -> (res: Result<Vec<u8>, SignatureSaveError>)
    requires
        4 * width * height <= isize::MAX,
    ensures
        !has_ink(strokes_view(strokes@)) ==> res == Err::<Vec<u8>, SignatureSaveError>(SignatureSaveError::NoSignature),
        has_ink(strokes_view(strokes@)) ==> match res {
            Ok(bytes) => png_encoding(width, height, signature_pixels(width as int, height as int, strokes_view(strokes@)))
                == Some(bytes@),
            Err(e) => e == SignatureSaveError::Encode && png_encoding(
                width,
                height,
                signature_pixels(width as int, height as int, strokes_view(strokes@)),
            ) is None,
        },
{
    let raster = render_signature(strokes, width, height)?;
    encode_signature_png(&raster)
}

} // verus!
