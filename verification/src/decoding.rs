use vstd::prelude::*;

verus! {

/// Whether a decoded image is well formed: its sides fit in 32 bits and its
/// samples hold at least `4 * width * height` bytes.
pub open spec fn decoded_well_formed(rgba: Seq<u8>, width: usize, height: usize) -> bool {
    &&& width <= u32::MAX
    &&& height <= u32::MAX
    &&& rgba.len() >= 4 * width * height
}

/// The record of one image decoding: the RGBA8 samples the decoder produced
/// and the image's sides. Only [`decode_rgba`] makes one, so a record always
/// stands for samples that really came out of the decoder.
pub struct Decoded {
    samples: Ghost<Seq<u8>>,
    width: usize,
    height: usize,
}

impl Decoded {
    /// The samples the decoder produced.
    pub closed spec fn samples(&self) -> Seq<u8> {
        self.samples@
    }

    /// The decoded image's width.
    pub closed spec fn spec_width(&self) -> usize {
        self.width
    }

    /// The decoded image's height.
    pub closed spec fn spec_height(&self) -> usize {
        self.height
    }

    /// The decoded image's width.
    pub fn width(&self) -> (width: usize)
        ensures
            width == self.spec_width(),
    {
        self.width
    }

    /// The decoded image's height.
    pub fn height(&self) -> (height: usize)
        ensures
            height == self.spec_height(),
    {
        self.height
    }
}

/// Decodes an image file with `image::load_from_memory`, converts it with
/// `to_rgba8` and hands out its samples together with the record of the
/// decoding, which holds the same samples and the `(width, height)` extents
/// (`into_flat_samples`, `extents`); `None` when decoding fails.
///
/// Whether decoding succeeds, and what it gives, also depends on the decoding
/// hooks registered in the process, so the contract does not tie the result
/// to `bytes`. It states only what holds of every decoded image: the sides
/// come from `u32` dimensions, and the flat samples are well formed for a
/// packed RGBA8 layout, so they hold at least `4 * width * height` bytes.
#[verifier::external_body]
pub(crate) fn decode_rgba(bytes: &[u8]) -> (decoded: Option<(Vec<u8>, Decoded)>)
    ensures
        decoded matches Some((rgba, record)) ==> {
            &&& record.samples() == rgba@
            &&& decoded_well_formed(rgba@, record.spec_width(), record.spec_height())
        },
{
    match image::load_from_memory(bytes) {
        Ok(image) => {
            let samples = image.to_rgba8().into_flat_samples();
            let (_, width, height) = samples.extents();
            let record = Decoded { samples: Ghost(samples.samples@), width, height };
            Some((samples.samples, record))
        },
        Err(_) => None,
    }
}

} // verus!
