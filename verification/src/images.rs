use image::{DynamicImage, ImageFormat};
use vstd::prelude::*;

verus! {

/// An 8-bit RGBA picture: four bytes per pixel, row by row.
#[derive(PartialEq, Eq, Debug)]
pub struct RgbaPicture {
    pub rgba: Vec<u8>,
    pub width: u32,
    pub height: u32,
}

/// Why a picture could not be had.
#[derive(PartialEq, Eq, Debug)]
pub enum PictureError {
    /// The bytes are not a PNG image; the decoder's message.
    Decode(String),
    /// The image is not stored as 8-bit RGBA.
    NotRgba8,
}

/// What decoding `bytes` as PNG with `image::load_from_memory_with_format`
/// gives: the decoder's message, or the image's pixels when it is stored as
/// 8-bit RGBA (`None` for another layout) with its width and height.
pub uninterp spec fn png_stored_rgba8(bytes: Seq<u8>) -> Result<
    Option<(Seq<u8>, u32, u32)>,
    Seq<char>,
>;

/// What decoding `bytes` as PNG and converting the image to 8-bit RGBA
/// (`DynamicImage::into_rgba8`) gives: the decoder's message, or the pixels
/// with the width and height.
pub uninterp spec fn png_converted_rgba8(bytes: Seq<u8>) -> Result<(Seq<u8>, u32, u32), Seq<char>>;

/// Decodes `bytes` as PNG (`image::load_from_memory_with_format`) and takes
/// the image apart when it is stored as 8-bit RGBA. The contract ties the
/// outcome to `png_stored_rgba8(bytes)` and states that the pixels take four
/// bytes each; what the outcome is for given bytes is not stated.
#[verifier::external_body]
fn decode_png_stored(bytes: &[u8]) -> (res: Result<Option<(Vec<u8>, u32, u32)>, String>)
    ensures
        match res {
            Ok(None) => png_stored_rgba8(bytes@) == Ok::<_, Seq<char>>(
                None::<(Seq<u8>, u32, u32)>,
            ),
            Ok(Some((px, w, h))) => png_stored_rgba8(bytes@) == Ok::<_, Seq<char>>(
                Some((px@, w, h)),
            ),
            Err(e) => png_stored_rgba8(bytes@) == Err::<Option<(Seq<u8>, u32, u32)>, _>(e@),
        },
        res matches Ok(Some((px, w, h))) ==> px@.len() == 4 * w * h,
{
    match image::load_from_memory_with_format(bytes, ImageFormat::Png) {
        Err(e) => Err(e.to_string()),
        Ok(DynamicImage::ImageRgba8(buf)) => {
            let (w, h) = buf.dimensions();
            Ok(Some((buf.into_raw(), w, h)))
        },
        Ok(_) => Ok(None),
    }
}

/// Decodes `bytes` as PNG and converts the image to 8-bit RGBA
/// (`image::load_from_memory_with_format`, `DynamicImage::into_rgba8`). The
/// contract ties the outcome to `png_converted_rgba8(bytes)`, states that
/// the pixels take four bytes each, and relates it to `png_stored_rgba8` of
/// the same bytes: both decode with the same call, so they fail alike, and an
/// image stored as 8-bit RGBA converts to itself. What the outcome is for
/// given bytes is not stated.
#[verifier::external_body]
fn decode_png_converted(bytes: &[u8]) -> (res: Result<(Vec<u8>, u32, u32), String>)
    ensures
        match res {
            Ok((px, w, h)) => png_converted_rgba8(bytes@) == Ok::<_, Seq<char>>((px@, w, h)),
            Err(e) => png_converted_rgba8(bytes@) == Err::<(Seq<u8>, u32, u32), _>(e@),
        },
        res matches Ok((px, w, h)) ==> px@.len() == 4 * w * h,
        res matches Err(e) ==> png_stored_rgba8(bytes@) matches Err(m) && m == e@,
        res is Ok ==> png_stored_rgba8(bytes@) is Ok,
        res matches Ok((px, w, h)) ==> (png_stored_rgba8(bytes@) matches Ok(Some(t)) ==> t == (
            px@,
            w,
            h,
        )),
{
    match image::load_from_memory_with_format(bytes, ImageFormat::Png) {
        Err(e) => Err(e.to_string()),
        Ok(img) => {
            let buf = img.into_rgba8();
            let (w, h) = buf.dimensions();
            Ok((buf.into_raw(), w, h))
        },
    }
}

/// The window icon from the bytes of a PNG file: its pixels, which must be
/// stored as 8-bit RGBA, with its width and height.
pub fn load_window_icon(bytes: &[u8]) -> (r: Result<RgbaPicture, PictureError>)
    ensures
        match png_stored_rgba8(bytes@) {
            Err(m) => r matches Err(PictureError::Decode(e)) && e@ == m,
            Ok(None) => r matches Err(PictureError::NotRgba8),
            Ok(Some((px, w, h))) => r matches Ok(p) && p.rgba@ == px && p.width == w && p.height
                == h,
        },
        r matches Ok(p) ==> p.rgba@.len() == 4 * p.width * p.height,
{
    match decode_png_stored(bytes) {
        Err(e) => Err(PictureError::Decode(e)),
        Ok(None) => Err(PictureError::NotRgba8),
        Ok(Some((rgba, width, height))) => Ok(RgbaPicture { rgba, width, height }),
    }
}

/// The pixels of a PNG file as 8-bit RGBA, converted from whatever layout the
/// file stores, with the width and height.
pub fn load_picture(bytes: &[u8]) -> (r: Result<RgbaPicture, PictureError>)
    ensures
        match png_converted_rgba8(bytes@) {
            Err(m) => r matches Err(PictureError::Decode(e)) && e@ == m,
            Ok((px, w, h)) => r matches Ok(p) && p.rgba@ == px && p.width == w && p.height == h,
        },
        r matches Ok(p) ==> p.rgba@.len() == 4 * p.width * p.height,
        png_stored_rgba8(bytes@) matches Ok(Some((px, w, h))) ==> r matches Ok(p) && p.rgba@ == px
            && p.width == w && p.height == h,
        png_stored_rgba8(bytes@) matches Err(m) ==> r matches Err(PictureError::Decode(e)) && e@
            == m,
{
    match decode_png_converted(bytes) {
        Err(e) => Err(PictureError::Decode(e)),
        Ok((rgba, width, height)) => Ok(RgbaPicture { rgba, width, height }),
    }
}

} // verus!
