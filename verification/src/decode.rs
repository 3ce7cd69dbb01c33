//! Decoding of encoded images into RGBA texels.

use vstd::prelude::*;
use crate::texture::ImageExtent;

verus! {

/// The error type of the `image` crate; carried through, never looked into.
#[verifier::external_type_specification]
#[verifier::external_body]
pub struct ExImageError(image::ImageError);

/// What the decoders built into the `image` crate make of `bytes`: the
/// width, the height and the RGBA texels, row by row, of the image that they
/// encode, or nothing where they are no image in an encoding that it has a
/// decoder for.
pub uninterp spec fn decoded_rgba(bytes: Seq<u8>) -> Option<(u32, u32, Seq<u8>)>;

/// An image in memory, as RGBA texels row by row.
#[derive(Clone, Debug, PartialEq, Eq)]
pub struct DecodedImage {
    pub extent: ImageExtent,
    pub pixels: Vec<u8>,
}

impl DecodedImage {
    /// Whether there are exactly the texels of the extent.
    pub open spec fn is_whole(self) -> bool {
        self.pixels@.len() == self.extent.texel_bytes()
    }
}

/// The bytes are no image in a supported encoding.
#[derive(Clone, Copy, Debug, PartialEq, Eq, Structural)]
pub struct DecodeError;

/// Calls `image::guess_format` and, with the format that it found,
/// `image::load_from_memory_with_format`, and hands the picture out as RGBA
/// texels through `DynamicImage::into_rgba8`.
///
/// Trusted: the outcome is a function of the bytes alone, named
/// [`decoded_rgba`]; the calls succeed exactly where that is something, and
/// then return its width, height and texels.  Both calls go by the tables
/// and decoders built into the crate, never by what a process registered
/// with it.  That the calls return on all bytes, with an error where the
/// bytes are malformed, is taken on trust as well.
#[verifier::external_body]
fn load_rgba(bytes: &[u8]) -> (r: Result<(u32, u32, Vec<u8>), image::ImageError>)
    ensures
        r is Ok <==> decoded_rgba(bytes@) is Some,
        r matches Ok(img) ==> decoded_rgba(bytes@) == Some((img.0, img.1, img.2@)),
{
    let format = image::guess_format(bytes)?;
    let rgba = image::load_from_memory_with_format(bytes, format)?.into_rgba8();
    Ok((rgba.width(), rgba.height(), rgba.into_raw()))
}

/// Whether `image` is what `decoded` describes.
pub open spec fn is_decoding(image: DecodedImage, decoded: Option<(u32, u32, Seq<u8>)>) -> bool {
    decoded == Some((image.extent.width, image.extent.height, image.pixels@))
}

/// Whether `decoded` describes an image with exactly the texels of its
/// extent.
pub open spec fn decodes_whole(decoded: Option<(u32, u32, Seq<u8>)>) -> bool {
    decoded matches Some(d) && d.2.len() == (ImageExtent { width: d.0, height: d.1 }).texel_bytes()
}

/// Decodes an encoded image.  Succeeds exactly on bytes that decode to an
/// image with all the texels of its extent.
pub fn decode_image(bytes: &[u8]) -> (r: Result<DecodedImage, DecodeError>)
    ensures
        r is Ok <==> decodes_whole(decoded_rgba(bytes@)),
        r matches Ok(image) ==> is_decoding(image, decoded_rgba(bytes@)) && image.is_whole(),
{
    match load_rgba(bytes) {
        Ok((width, height, pixels)) => {
            assert(0 <= width * height <= 0xffff_ffff * 0xffff_ffff) by (nonlinear_arith)
                requires
                    0 <= width <= 0xffff_ffff,
                    0 <= height <= 0xffff_ffff,
            ;
            let area: u128 = (width as u128) * (height as u128);
            if pixels.len() as u128 == 4 * area {
                Ok(DecodedImage { extent: ImageExtent { width, height }, pixels })
            } else {
                Err(DecodeError)
            }
        },
        Err(_) => Err(DecodeError),
    }
}

} // verus!
