use vstd::prelude::*;

use crate::error::XCapError;
use crate::img::RgbBuffer;
use crate::img::RgbaBuffer;
use crate::img::rgb_data;
use crate::img::rgb_from_raw;
use crate::img::rgb_raw;
use crate::img::rgba_data;
use crate::img::rgba_from_raw;
use crate::img::rgba_raw;
use crate::pixel::RawCaptureBuffer;
use crate::pixel::drop_alpha;
use crate::pixel::drop_alpha_bytes;
use crate::pixel::raw_consistent;
use crate::pixel::strip_padding;
use crate::pixel::stripped_rows;
use crate::pixel::swap_channels;
use crate::pixel::swap_rb;

verus! {

/// What normalization makes of a raw capture buffer: the padding of every
/// row stripped away, then blue and red swapped in every 4-byte pixel.
/// Rotation is not part of the pixel stage; it is applied earlier, when a
/// surface's geometry is computed.
pub open spec fn normalized_rgba(raw: RawCaptureBuffer) -> Seq<u8> {
    swap_rb(
        stripped_rows(raw.bytes@, raw.width as int, raw.bytes_per_row as int, raw.height as int),
    )
}

/// A canonical 4-channel image: `width * height` pixels, exactly
/// `width * height * 4` bytes in red-green-blue-alpha order, no padding.
pub struct CanonicalRgba {
    pub width: u32,
    pub height: u32,
    pub data: RgbaBuffer,
}

impl CanonicalRgba {
    /// The image's bytes, as the outside image crate stores them.
    pub open spec fn data_seq(self) -> Seq<u8> {
        rgba_data(self.data)
    }

    /// Reads the image's bytes back out of the outside image type.
    pub fn bytes(&self) -> (r: &Vec<u8>)
        ensures
            r@ == self.data_seq(),
    {
        rgba_raw(&self.data)
    }
}

/// A canonical 3-channel image: `width * height` pixels, exactly
/// `width * height * 3` bytes in red-green-blue order, no padding.
pub struct CanonicalRgb {
    pub width: u32,
    pub height: u32,
    pub data: RgbBuffer,
}

impl CanonicalRgb {
    /// The image's bytes, as the outside image crate stores them.
    pub open spec fn data_seq(self) -> Seq<u8> {
        rgb_data(self.data)
    }

    /// Reads the image's bytes back out of the outside image type.
    pub fn bytes(&self) -> (r: &Vec<u8>)
        ensures
            r@ == self.data_seq(),
    {
        rgb_raw(&self.data)
    }
}

/// Normalizes a raw capture buffer into a canonical 4-channel image:
/// stride padding stripped, blue and red swapped into red-green-blue-alpha
/// order. Fails with `DecodeFailed` exactly when the buffer's declared
/// geometry is inconsistent with its length.
pub fn capture(raw: &RawCaptureBuffer) -> (r: Result<CanonicalRgba, XCapError>)
    ensures
        match r {
            Ok(img) => raw_consistent(*raw) && img.width == raw.width && img.height == raw.height
                && img.data_seq() == normalized_rgba(*raw),
            Err(e) => !raw_consistent(*raw) && e == XCapError::DecodeFailed,
        },
{
    let mut buf = match strip_padding(raw) {
        Ok(b) => b,
        Err(e) => {
            return Err(e);
        },
    };
    let ghost w = raw.width as int;
    let ghost h = raw.height as int;
    proof {
        assert(h * (w * 4) == 4 * (w * h) && 4 * w * h == 4 * (w * h)) by (nonlinear_arith);
    }
    swap_channels(&mut buf);
    match rgba_from_raw(raw.width, raw.height, buf) {
        Some(b) => Ok(CanonicalRgba { width: raw.width, height: raw.height, data: b }),
        None => {
            proof {
                assert(false);
            }
            Err(XCapError::DecodeFailed)
        },
    }
}

/// Normalizes a raw capture buffer into a canonical 3-channel image:
/// stride padding stripped, blue and red swapped, the alpha byte of every
/// pixel dropped. Fails with `DecodeFailed` exactly when the buffer's
/// declared geometry is inconsistent with its length.
pub fn capture_rgb(raw: &RawCaptureBuffer) -> (r: Result<CanonicalRgb, XCapError>)
    ensures
        match r {
            Ok(img) => raw_consistent(*raw) && img.width == raw.width && img.height == raw.height
                && img.data_seq() == drop_alpha_bytes(normalized_rgba(*raw)),
            Err(e) => !raw_consistent(*raw) && e == XCapError::DecodeFailed,
        },
{
    let mut buf = match strip_padding(raw) {
        Ok(b) => b,
        Err(e) => {
            return Err(e);
        },
    };
    let ghost w = raw.width as int;
    let ghost h = raw.height as int;
    proof {
        assert(h * (w * 4) == 4 * (w * h) && 4 * w * h == 4 * (w * h)) by (nonlinear_arith);
    }
    swap_channels(&mut buf);
    let rgb = drop_alpha(&buf);
    proof {
        assert((4 * (w * h)) / 4 == w * h);
        assert(3 * w * h == (w * h) * 3) by (nonlinear_arith);
    }
    match rgb_from_raw(raw.width, raw.height, rgb) {
        Some(b) => Ok(CanonicalRgb { width: raw.width, height: raw.height, data: b }),
        None => {
            proof {
                assert(false);
            }
            Err(XCapError::DecodeFailed)
        },
    }
}

} // verus!
