//! Decoding of the images bundled with the application (icons and
//! illustrations) into RGBA8 pixels.

use vstd::prelude::*;

verus! {

/// A decoded image: its size and its RGBA8 bytes, row-major.
pub struct RgbaAsset {
    pub width: u32,
    pub height: u32,
    pub rgba: Vec<u8>,
}

/// What `image::load_from_memory(..).into_rgba8()` yields for the given
/// bytes: width, height and RGBA8 bytes, or `None` where decoding fails.
pub uninterp spec fn decoded_rgba(bytes: Seq<u8>) -> Option<(u32, u32, Seq<u8>)>;

/// `image::load_from_memory`, converted with `into_rgba8`.
#[verifier::external_body]
fn decode_rgba8(bytes: &[u8]) -> (res: Option<(u32, u32, Vec<u8>)>)
    ensures
        match res {
            Some((w, h, px)) => decoded_rgba(bytes@) == Some((w, h, px@)),
            None => decoded_rgba(bytes@) is None,
        },
{
    match image::load_from_memory(bytes) {
        Ok(img) => {
            let rgba = img.into_rgba8();
            Some((rgba.width(), rgba.height(), rgba.into_raw()))
        },
        Err(_) => None,
    }
}

/// Decodes a bundled image (PNG or WebP) into RGBA8; `None` when the bytes are not
/// an image that can be decoded.
pub fn decode_image_asset(bytes: &[u8]) -> (res: Option<RgbaAsset>)
    ensures
        match res {
            Some(a) => decoded_rgba(bytes@) == Some((a.width, a.height, a.rgba@)),
            None => decoded_rgba(bytes@) is None,
        },
{
    match decode_rgba8(bytes) {
        Some((width, height, rgba)) => Some(RgbaAsset { width, height, rgba }),
        None => None,
    }
}

} // verus!
