//! The texture asset: decoding the embedded image into raw RGBA bytes and
//! sizing its staging buffer.
//!
//! Decoding is delegated to an outside library; it is a pure function of
//! the encoded bytes, and the decoded buffer holds four bytes per pixel.
//! The rest of the texture path — staging the pixels, planning the memory,
//! recording the transfer — works on the plain values returned here.

use vstd::prelude::*;

verus! {

/// A decoded image: its dimensions and its raw RGBA bytes.
#[derive(PartialEq, Eq, Debug)]
pub struct DecodedImage {
    pub width: u32,
    pub height: u32,
    pub pixels: Vec<u8>,
}

/// What decoding an encoded image yields: a function of the bytes alone,
/// `None` exactly when the decoder rejects them.
pub uninterp spec fn decoded_rgba_of(bytes: Seq<u8>) -> Option<DecodedImage>;

/// Relies on image::load_from_memory and DynamicImage::to_rgba8: decoding
/// is a function of the encoded bytes alone, and the RGBA buffer holds
/// exactly four bytes per pixel.
#[verifier::external_body]
fn decode_rgba(bytes: &Vec<u8>) -> (r: Option<DecodedImage>)
    ensures
        match r {
            Some(img) => {
                &&& decoded_rgba_of(bytes@) == Some(img)
                &&& img.pixels@.len() == 4 * img.width * img.height
            },
            None => decoded_rgba_of(bytes@) is None,
        },
{
    let img = match image::load_from_memory(bytes.as_slice()) {
        Ok(i) => i.to_rgba8(),
        Err(_) => return None,
    };
    let (width, height) = img.dimensions();
    Some(DecodedImage { width, height, pixels: img.into_raw() })
}

/// Decode the texture asset and size its staging buffer: the buffer is
/// created at exactly the length of the decoded pixel bytes, four per
/// pixel. Fails exactly when the decoder rejects the bytes.
pub fn decode_texture(bytes: &Vec<u8>) -> (r: Option<(DecodedImage, u64)>)
    ensures
        match r {
            Some(p) => {
                &&& decoded_rgba_of(bytes@) == Some(p.0)
                &&& p.0.pixels@.len() == 4 * p.0.width * p.0.height
                &&& p.1 == p.0.pixels@.len()
            },
            None => decoded_rgba_of(bytes@) is None,
        },
{
    match decode_rgba(bytes) {
        Some(img) => {
            let staging_bytes = img.pixels.len() as u64;
            Some((img, staging_bytes))
        },
        None => None,
    }
}

} // verus!
