//! QR decoding of a luma frame with `rqrr`: a pass over the frame as it is
//! and, when that finds nothing, a pass over the frame turned a quarter.

use vstd::prelude::*;
use crate::frame_convert::rotate_luma_ccw;

verus! {

/// The texts `rqrr` decodes from the grids it detects in a `width` x
/// `height` grey image, one entry per grid in detection order; `None` for a
/// grid whose decoding fails.
pub uninterp spec fn qr_grid_texts(width: u32, height: u32, luma: Seq<u8>) -> Seq<Option<Seq<char>>>;

/// The texts as sequences of characters.
pub open spec fn texts_view(texts: Seq<Option<String>>) -> Seq<Option<Seq<char>>> {
    texts.map_values(
        |t: Option<String>|
            match t {
                Some(s) => Some(s@),
                None => None,
            },
    )
}

/// `GrayImage::from_raw`, then `rqrr::PreparedImage::prepare`,
/// `detect_grids` and `Grid::decode` on each grid: the decoded text of each
/// grid, or `None` where decoding fails.
#[verifier::external_body]
fn decode_qr_grids(width: u32, height: u32, luma: Vec<u8>) -> (texts: Vec<Option<String>>)
    requires
        luma@.len() >= width * height,
    ensures
        texts_view(texts@) == qr_grid_texts(width, height, luma@),
{
    let gray = image::GrayImage::from_raw(width, height, luma).unwrap();
    let mut prepared = rqrr::PreparedImage::prepare(gray);
    prepared.detect_grids().into_iter().map(|grid| match grid.decode() {
        Ok((_, text)) => Some(text),
        Err(_) => None,
    }).collect()
}

/// The first decoded text that is not empty.
pub open spec fn first_text(texts: Seq<Option<Seq<char>>>) -> Option<Seq<char>>
    decreases texts.len(),
{
    if texts.len() == 0 {
        None
    } else {
        match texts[0] {
            Some(s) => if s.len() > 0 {
                Some(s)
            } else {
                first_text(texts.drop_first())
            },
            None => first_text(texts.drop_first()),
        }
    }
}

/// The first decoded text that is not empty, if any.
pub fn first_nonempty_text(texts: &Vec<Option<String>>) -> (res: Option<String>)
    ensures
        match res {
            Some(s) => first_text(texts_view(texts@)) == Some(s@),
            None => first_text(texts_view(texts@)) is None,
        },
{
    let ghost tv = texts_view(texts@);
    assert(tv.subrange(0, tv.len() as int) =~= tv);
    let mut i: usize = 0;
    while i < texts.len()
        invariant
            i <= texts.len(),
            tv == texts_view(texts@),
            first_text(tv) == first_text(tv.subrange(i as int, tv.len() as int)),
        decreases texts.len() - i,
    {
        let ghost rest = tv.subrange(i as int, tv.len() as int);
        assert(rest[0] == tv[i as int]);
        assert(rest.drop_first() =~= tv.subrange(i + 1, tv.len() as int));
        match &texts[i] {
            Some(s) => {
                if !s.as_str().is_empty() {
                    return Some(s.clone());
                }
            },
            None => {},
        }
        i = i + 1;
    }
    assert(tv.subrange(i as int, tv.len() as int).len() == 0);
    None
}

/// The luma bytes of the first `n` entries.
fn copy_prefix(y: &[u8], n: usize) -> (out: Vec<u8>)
    requires
        n <= y@.len(),
    ensures
        out@ == y@.subrange(0, n as int),
{
    let mut out: Vec<u8> = Vec::new();
    let mut i: usize = 0;
    while i < n
        invariant
            i <= n,
            n <= y@.len(),
            out@ == y@.subrange(0, i as int),
        decreases n - i,
    {
        out.push(y[i]);
        i = i + 1;
    }
    out
}

/// A quarter turn of a `w` x `h` luma image, as `rotate_luma_ccw` makes it.
pub open spec fn quarter_turn(y: Seq<u8>, w: int, h: int) -> Seq<u8> {
    Seq::new(
        (w * h) as nat,
        |i: int| y[(h - 1 - i % h) * w + i / h],
    )
}

/// What `decode_qr_from_y` finds: the first non-empty text of the frame as
/// it is, else of the frame turned a quarter counter-clockwise.
pub open spec fn decoded_qr(y: Seq<u8>, w: u32, h: u32) -> Option<Seq<char>> {
    match first_text(qr_grid_texts(w, h, y)) {
        Some(s) => Some(s),
        None => first_text(qr_grid_texts(h, w, quarter_turn(y, w as int, h as int))),
    }
}

proof fn lemma_quarter_turn_matches(out: Seq<u8>, y: Seq<u8>, w: int, h: int)
    requires
        w >= 0,
        h >= 0,
        out.len() == w * h,
        forall|row: int, col: int| 0 <= row < h && 0 <= col < w ==> #[trigger] out[col * h + (h - 1 - row)] == y[row * w + col],
    ensures
        out == quarter_turn(y, w, h),
{
    assert forall|i: int| 0 <= i < out.len() implies out[i] == quarter_turn(y, w, h)[i] by {
        let col = i / h;
        let row = h - 1 - i % h;
        assert(h > 0) by (nonlinear_arith)
            requires
                0 <= i < w * h,
                w >= 0,
                h >= 0,
        ;
        assert(col * h + i % h == i && 0 <= i % h < h) by (nonlinear_arith)
            requires
                h > 0,
                col == i / h,
        ;
        assert(0 <= col < w) by (nonlinear_arith)
            requires
                h > 0,
                col == i / h,
                0 <= i < w * h,
        ;
        assert(out[col * h + (h - 1 - row)] == y[row * w + col]);
    }
    assert(out =~= quarter_turn(y, w, h));
}

/// Decodes a QR code from a `width` x `height` luma frame.
pub fn decode_qr_from_y(y: &[u8], width: u32, height: u32) -> (res: Option<String>)
    requires
        width * height <= usize::MAX,
        y@.len() >= width * height,
    ensures
        match res {
            Some(s) => decoded_qr(y@, width, height) == Some(s@),
            None => decoded_qr(y@, width, height) is None,
        },
{
    let whole = copy_prefix(y, y.len());
    assert(whole@ =~= y@);
    let texts = decode_qr_grids(width, height, whole);
    let found = first_nonempty_text(&texts);
    if found.is_some() {
        return found;
    }
    let portrait = rotate_luma_ccw(y, width, height);
    proof {
        lemma_quarter_turn_matches(portrait@, y@, width as int, height as int);
        assert(portrait@.len() >= height * width) by (nonlinear_arith)
            requires
                portrait@.len() == width * height,
        ;
    }
    let texts = decode_qr_grids(height, width, portrait);
    first_nonempty_text(&texts)
}

} // verus!
