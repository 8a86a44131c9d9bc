use vstd::prelude::*;

verus! {

/// A 4-channel image of the outside image crate, held opaquely: the
/// verifier sees its byte contents only through `rgba_data`.
#[verifier::external_body]
pub struct RgbaBuffer {
    img: image::RgbaImage,
}

/// A 3-channel image of the outside image crate, held opaquely: the
/// verifier sees its byte contents only through `rgb_data`.
#[verifier::external_body]
pub struct RgbBuffer {
    img: image::RgbImage,
}

/// The byte container the 4-channel image was built over.
pub uninterp spec fn rgba_data(b: RgbaBuffer) -> Seq<u8>;

/// The byte container the 3-channel image was built over.
pub uninterp spec fn rgb_data(b: RgbBuffer) -> Seq<u8>;

/// Relies on image::ImageBuffer::from_raw (four `u8` channels): it returns
/// `Some` exactly when the container holds at least `width * height * 4`
/// bytes, and the image then owns that container unchanged.
#[verifier::external_body]
pub(crate) fn rgba_from_raw(width: u32, height: u32, buf: Vec<u8>) -> (r: Option<RgbaBuffer>)
    ensures
        r is Some <==> 4 * (width as int) * (height as int) <= buf@.len(),
        r matches Some(b) ==> rgba_data(b) == buf@,
{
    match image::RgbaImage::from_raw(width, height, buf) {
        Some(img) => Some(RgbaBuffer { img }),
        None => None,
    }
}

/// Relies on image::ImageBuffer::from_raw (three `u8` channels): it returns
/// `Some` exactly when the container holds at least `width * height * 3`
/// bytes, and the image then owns that container unchanged.
#[verifier::external_body]
pub(crate) fn rgb_from_raw(width: u32, height: u32, buf: Vec<u8>) -> (r: Option<RgbBuffer>)
    ensures
        r is Some <==> 3 * (width as int) * (height as int) <= buf@.len(),
        r matches Some(b) ==> rgb_data(b) == buf@,
{
    match image::RgbImage::from_raw(width, height, buf) {
        Some(img) => Some(RgbBuffer { img }),
        None => None,
    }
}

/// Relies on image::ImageBuffer::as_raw: it hands back the underlying byte
/// container, unchanged since the image was built.
#[verifier::external_body]
pub fn rgba_raw(b: &RgbaBuffer) -> (r: &Vec<u8>)
    ensures
        r@ == rgba_data(*b),
{
    b.img.as_raw()
}

/// Relies on image::ImageBuffer::as_raw: it hands back the underlying byte
/// container, unchanged since the image was built.
#[verifier::external_body]
pub fn rgb_raw(b: &RgbBuffer) -> (r: &Vec<u8>)
    ensures
        r@ == rgb_data(*b),
{
    b.img.as_raw()
}

} // verus!
