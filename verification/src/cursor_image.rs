use vstd::prelude::*;
use winit::window::{BadImage, CustomCursor, CustomCursorSource};
use crate::decoding::{Decoded, decode_rgba, decoded_well_formed};

verus! {

#[verifier::external_type_specification]
#[verifier::external_body]
pub struct ExCustomCursorSource(CustomCursorSource);

/// Largest width and height a custom cursor image may have.
pub const MAX_CURSOR_SIZE: u16 = 2048;

/// Why an RGBA image cannot be made into a custom cursor.
#[derive(Clone, Copy, Debug, PartialEq, Eq)]
pub enum CursorImageError {
    /// A side is larger than [`MAX_CURSOR_SIZE`].
    TooLarge { width: u16, height: u16 },
    /// The byte count is not a whole number of 4-byte RGBA pixels.
    ByteCountNotDivisibleBy4 { byte_count: usize },
    /// The number of pixels is not `width * height`.
    DimensionsVsPixelCount { width: u16, height: u16, width_x_height: u64, pixel_count: u64 },
    /// The hotspot lies outside the image.
    HotspotOutOfBounds { width: u16, height: u16, hotspot_x: u16, hotspot_y: u16 },
}

/// Why an image file cannot be made into a custom cursor.
#[derive(Clone, Copy, Debug, PartialEq, Eq)]
pub enum CursorError {
    /// The bytes are not an image in a format that can be decoded.
    Undecodable,
    /// The decoded image was refused as a cursor image.
    BadImage(CursorImageError),
}

/// The check a cursor image goes through, in order: the size limit, whole
/// pixels, pixel count against the dimensions, hotspot inside the image.
/// `None` when the image is accepted.
pub open spec fn spec_cursor_image_check(
    byte_count: usize,
    width: u16,
    height: u16,
    hotspot_x: u16,
    hotspot_y: u16,
) -> Option<CursorImageError> {
    if width > MAX_CURSOR_SIZE || height > MAX_CURSOR_SIZE {
        Some(CursorImageError::TooLarge { width, height })
    } else if byte_count % 4 != 0 {
        Some(CursorImageError::ByteCountNotDivisibleBy4 { byte_count })
    } else if byte_count / 4 != width * height {
        Some(
            CursorImageError::DimensionsVsPixelCount {
                width,
                height,
                width_x_height: (width * height) as u64,
                pixel_count: (byte_count / 4) as u64,
            },
        )
    } else if hotspot_x >= width || hotspot_y >= height {
        Some(CursorImageError::HotspotOutOfBounds { width, height, hotspot_x, hotspot_y })
    } else {
        None
    }
}

/// A custom cursor source together with the image it was built from:
/// RGBA8 samples, width, height and hotspot.
pub struct CursorSource {
    pub source: CustomCursorSource,
    pub image: Ghost<(Seq<u8>, u16, u16, u16, u16)>,
    /// The decoding the image came from, when it was decoded from a file.
    pub decoded: Option<Decoded>,
}

/// Calls `winit::window::CustomCursor::from_rgba`. Its source accepts the
/// image exactly when `spec_cursor_image_check` finds nothing, and otherwise
/// fails with the `BadImage` variant that the check names (converted here to
/// `CursorImageError`, field for field). An accepted image is kept in the
/// source as given: the samples, sides and hotspot passed in (and no
/// decoding record is attached).
#[verifier::external_body]
fn cursor_from_rgba(rgba: Vec<u8>, width: u16, height: u16, hotspot_x: u16, hotspot_y: u16) -> (source: Result<CursorSource, CursorImageError>)
    ensures
        source is Ok <==> spec_cursor_image_check(rgba@.len() as usize, width, height, hotspot_x, hotspot_y) is None,
        source matches Err(e) ==> Some(e) == spec_cursor_image_check(rgba@.len() as usize, width, height, hotspot_x, hotspot_y),
        source matches Ok(s) ==> s.image@ == (rgba@, width, height, hotspot_x, hotspot_y) && s.decoded is None,
{
    let image = Ghost((rgba@, width, height, hotspot_x, hotspot_y));
    match CustomCursor::from_rgba(rgba, width, height, hotspot_x, hotspot_y) {
        Ok(source) => Ok(CursorSource { source, image, decoded: None }),
        Err(BadImage::TooLarge { width, height }) => Err(CursorImageError::TooLarge { width, height }),
        Err(BadImage::ByteCountNotDivisibleBy4 { byte_count }) => Err(CursorImageError::ByteCountNotDivisibleBy4 { byte_count }),
        Err(BadImage::DimensionsVsPixelCount { width, height, width_x_height, pixel_count }) => Err(CursorImageError::DimensionsVsPixelCount { width, height, width_x_height, pixel_count }),
        Err(BadImage::HotspotOutOfBounds { width, height, hotspot_x, hotspot_y }) => Err(CursorImageError::HotspotOutOfBounds { width, height, hotspot_x, hotspot_y }),
    }
}

/// The check a decoded `width` x `height` image with `byte_count` bytes of
/// samples goes through: its sides are taken modulo 2^16 and the hotspot is
/// put at the centre (halves rounded down).
pub open spec fn spec_decoded_cursor_check(byte_count: usize, width: usize, height: usize) -> Option<CursorImageError> {
    let w = width as u16;
    let h = height as u16;
    spec_cursor_image_check(byte_count, w, h, (w / 2) as u16, (h / 2) as u16)
}

/// The image a cursor made from decoded samples holds: the samples, the
/// sides taken modulo 2^16, and the hotspot at the centre.
pub open spec fn spec_decoded_cursor_image(rgba: Seq<u8>, width: usize, height: usize) -> (Seq<u8>, u16, u16, u16, u16) {
    let w = width as u16;
    let h = height as u16;
    (rgba, w, h, (w / 2) as u16, (h / 2) as u16)
}

/// Whether `source` is what making a cursor from the decoded image
/// (`rgba`, `width`, `height`) gives: the cursor holding that image when the
/// check accepts it, the check's error otherwise.
pub open spec fn is_decoded_cursor(source: Result<CursorSource, CursorError>, rgba: Seq<u8>, width: usize, height: usize) -> bool {
    match source {
        Ok(s) => spec_decoded_cursor_check(rgba.len() as usize, width, height) is None
            && s.image@ == spec_decoded_cursor_image(rgba, width, height),
        Err(CursorError::BadImage(e)) => spec_decoded_cursor_check(rgba.len() as usize, width, height) == Some(e),
        Err(CursorError::Undecodable) => false,
    }
}

/// Makes a custom cursor source from decoded RGBA samples, with the sides
/// taken as 16-bit values and the hotspot at the centre of the image.
pub fn cursor_source(rgba: Vec<u8>, width: usize, height: usize) -> (source: Result<CursorSource, CursorImageError>)
    ensures
        source is Ok <==> spec_decoded_cursor_check(rgba@.len() as usize, width, height) is None,
        source matches Err(e) ==> Some(e) == spec_decoded_cursor_check(rgba@.len() as usize, width, height),
        source matches Ok(s) ==> s.image@ == spec_decoded_cursor_image(rgba@, width, height) && s.decoded is None,
{
    let w = width as u16;
    let h = height as u16;
    cursor_from_rgba(rgba, w, h, w / 2, h / 2)
}

/// Decodes an image file into a custom cursor source, with the hotspot at
/// the centre of the image. Either decoding failed (`Undecodable`), or the
/// result is exactly what `cursor_source` gives on the decoded image; an
/// accepted cursor carries the record of its decoding and holds that
/// decoding's own samples.
pub fn decode_cursor(bytes: &[u8]) -> (source: Result<CursorSource, CursorError>)
    ensures
        source matches Err(CursorError::Undecodable) || exists|rgba: Seq<u8>, width: usize, height: usize|
            decoded_well_formed(rgba, width, height) && #[trigger] is_decoded_cursor(source, rgba, width, height),
        source matches Ok(s) ==> s.decoded matches Some(record) && {
            &&& decoded_well_formed(record.samples(), record.spec_width(), record.spec_height())
            &&& is_decoded_cursor(source, record.samples(), record.spec_width(), record.spec_height())
        },
{
    match decode_rgba(bytes) {
        None => Err(CursorError::Undecodable),
        Some((rgba, record)) => {
            let width = record.width();
            let height = record.height();
            let ghost samples = rgba@;
            let result = match cursor_source(rgba, width, height) {
                Ok(cursor) => Ok(CursorSource { decoded: Some(record), ..cursor }),
                Err(e) => Err(CursorError::BadImage(e)),
            };
            assert(is_decoded_cursor(result, samples, width, height));
            result
        },
    }
}

/// A cursor image is accepted exactly when both sides are at most
/// [`MAX_CURSOR_SIZE`], the samples are exactly four bytes per pixel of a
/// `width` x `height` image, and the hotspot lies inside the image.
pub proof fn lemma_cursor_image_check_accepts(byte_count: usize, width: u16, height: u16, hotspot_x: u16, hotspot_y: u16)
    ensures
        (spec_cursor_image_check(byte_count, width, height, hotspot_x, hotspot_y) is None) <==> {
            &&& width <= 2048 && height <= 2048
            &&& byte_count == 4 * (width * height)
            &&& hotspot_x < width && hotspot_y < height
        },
{
}

/// A cursor made from decoded samples holds those very samples, the sides
/// taken modulo 2^16, and its hotspot at the centre of the image (halves
/// rounded down); the check it goes through is the cursor image check on
/// exactly that image.
pub proof fn lemma_decoded_cursor_image(rgba: Seq<u8>, width: usize, height: usize)
    ensures
        ({
            let m = spec_decoded_cursor_image(rgba, width, height);
            &&& m.0 == rgba
            &&& m.1 as int == width as int % 65536
            &&& m.2 as int == height as int % 65536
            &&& m.3 as int == m.1 as int / 2
            &&& m.4 as int == m.2 as int / 2
            &&& spec_decoded_cursor_check(rgba.len() as usize, width, height)
                == spec_cursor_image_check(rgba.len() as usize, m.1, m.2, m.3, m.4)
        }),
{
    assert((width as u16) as int == width as int % 65536) by (bit_vector);
    assert((height as u16) as int == height as int % 65536) by (bit_vector);
}

} // verus!
