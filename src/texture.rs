//! Texture images: decoded from an encoded image in memory (format detected
//! from the bytes) to 8-bit RGBA, or made from one color.
use image::ImageError;
use vstd::prelude::*;

verus! {

/// `image::ImageError`, carried through unopened.
#[verifier::external_type_specification]
#[verifier::external_body]
pub struct ExImageError(ImageError);

/// What decoding the bytes gives, in the format that
/// `image::guess_format` detects from their leading bytes, with
/// `image::load_from_memory_with_format` and then
/// `DynamicImage::to_rgba8`: width, height and pixel data, or nothing where
/// the bytes do not decode.
pub uninterp spec fn decoded_rgba8(bytes: Seq<u8>) -> Option<(u32, u32, Seq<u8>)>;

/// Relies on `image::guess_format`, `image::load_from_memory_with_format`
/// and `DynamicImage::to_rgba8`. With the format given, decoding reaches no
/// process-wide hook, so it depends on the bytes alone. A failure is an
/// `ImageError`. The decoder fills a buffer of exactly the image's size, and
/// `to_rgba8` keeps four bytes per pixel.
#[verifier::external_body]
fn decode_rgba8(bytes: &[u8]) -> (r: Result<(u32, u32, Vec<u8>), ImageError>)
    ensures
        r is Ok <==> decoded_rgba8(bytes@) is Some,
        r matches Ok((w, h, data)) ==> decoded_rgba8(bytes@) == Some((w, h, data@)) && fits_rgba(
            w,
            h,
            data@.len(),
        ),
{
    let decoded = match image::guess_format(bytes) {
        Ok(format) => image::load_from_memory_with_format(bytes, format),
        Err(e) => Err(e),
    };
    match decoded {
        Ok(img) => {
            let rgba = img.to_rgba8();
            let (w, h) = rgba.dimensions();
            Ok((w, h, rgba.into_raw()))
        },
        Err(e) => Err(e),
    }
}

/// Why a texture image could not be made.
#[derive(Debug)]
pub enum TextureError {
    /// The bytes are not an image that could be decoded.
    Decode(ImageError),
}

/// A texture in 8-bit RGBA: four bytes per pixel, row by row.
#[derive(Debug)]
pub struct TextureImage {
    width: u32,
    height: u32,
    rgba: Vec<u8>,
}

/// Whether `len` bytes hold exactly one RGBA pixel for each of
/// `width` x `height` pixels.
pub open spec fn fits_rgba(width: u32, height: u32, len: nat) -> bool {
    len == 4 * width * height
}

impl TextureImage {
    pub closed spec fn spec_width(&self) -> u32 {
        self.width
    }

    pub closed spec fn spec_height(&self) -> u32 {
        self.height
    }

    pub closed spec fn spec_pixels(&self) -> Seq<u8> {
        self.rgba@
    }

    pub closed spec fn wf(&self) -> bool {
        fits_rgba(self.width, self.height, self.rgba@.len())
    }

    /// An image of the given size over the given pixel data; none where the
    /// data does not hold exactly four bytes per pixel.
    pub fn new(width: u32, height: u32, rgba: Vec<u8>) -> (r: Option<Self>)
        ensures
            r is Some <==> fits_rgba(width, height, rgba@.len()),
            r matches Some(img) ==> img.wf() && img.spec_width() == width && img.spec_height()
                == height && img.spec_pixels() == rgba@,
    {
        proof {
            assert((width as int) * (height as int) <= 0xffff_ffff * 0xffff_ffff)
                by (nonlinear_arith)
                requires
                    width <= 0xffff_ffff,
                    height <= 0xffff_ffff,
            ;
        }
        let area: u128 = (width as u128) * (height as u128);
        let wanted: u128 = 4u128 * area;
        proof {
            assert(wanted == 4 * width * height) by (nonlinear_arith)
                requires
                    wanted == 4 * area,
                    area == width * height,
            ;
        }
        if rgba.len() as u128 == wanted {
            Some(TextureImage { width, height, rgba })
        } else {
            None
        }
    }

    /// A single pixel of the given color.
    pub fn from_color(rgba: [u8; 4]) -> (r: Self)
        ensures
            r.wf(),
            r.spec_width() == 1,
            r.spec_height() == 1,
            r.spec_pixels() == rgba@,
    {
        let data: Vec<u8> = vec![rgba[0], rgba[1], rgba[2], rgba[3]];
        proof {
            assert(data@ =~= rgba@);
        }
        TextureImage { width: 1, height: 1, rgba: data }
    }

    /// Decodes an encoded image to 8-bit RGBA. It fails exactly when the
    /// bytes do not decode, with `TextureError::Decode`.
    pub fn from_bytes(bytes: &[u8]) -> (r: Result<Self, TextureError>)
        ensures
            r is Err <==> decoded_rgba8(bytes@) is None,
            decoded_rgba8(bytes@) matches Some((w, h, data)) ==> r matches Ok(img) && img.wf()
                && img.spec_width() == w && img.spec_height() == h && img.spec_pixels() == data,
    {
        match decode_rgba8(bytes) {
            Ok((w, h, rgba)) => Ok(TextureImage { width: w, height: h, rgba }),
            Err(e) => Err(TextureError::Decode(e)),
        }
    }

    pub fn width(&self) -> (r: u32)
        ensures
            r == self.spec_width(),
    {
        self.width
    }

    pub fn height(&self) -> (r: u32)
        ensures
            r == self.spec_height(),
    {
        self.height
    }

    pub fn pixels(&self) -> (r: &[u8])
        ensures
            r@ == self.spec_pixels(),
    {
        self.rgba.as_slice()
    }
}

} // verus!
