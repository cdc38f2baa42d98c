//! The size-budget encoder: a bounded, deterministic search over the JPEG
//! quality parameter that re-encodes until a byte-size ceiling is met or
//! the search space is exhausted. Formats without a quality parameter
//! encode exactly once; an oversized result of theirs is left to the
//! downstream size validation.

use vstd::prelude::*;

use crate::codec::{encode_jpeg, encode_png, jpeg_encoding, pixel_data, png_encoding};
use crate::constraints::{ConvertError, Format};

verus! {

/// The quality attempted at search step `i`: 90, 80, ..., down to 10 at
/// the last of the nine steps.
pub open spec fn quality_level(i: int) -> u8 {
    (90 - 10 * i) as u8
}

/// The outcome of the JPEG quality search from step `i` on: the first
/// encoding at or after `i` that fits `max_bytes` wins; a rejection by
/// the encoder is fatal; nine oversized attempts exhaust the budget.
pub open spec fn jpeg_search_from(pixels: Seq<u8>, max_bytes: int, i: int) -> Result<
    Seq<u8>,
    ConvertError,
>
    decreases 9 - i,
{
    if i >= 9 {
        Err(ConvertError::SizeBudgetUnreachable)
    } else {
        match jpeg_encoding(pixels, quality_level(i)) {
            None => Err(ConvertError::EncodeFailure),
            Some(out) => if out.len() <= max_bytes {
                Ok(out)
            } else {
                jpeg_search_from(pixels, max_bytes, i + 1)
            },
        }
    }
}

/// What fitting `pixels` into `max_bytes` as `fmt` yields: JPEG runs the
/// quality search; PNG encodes exactly once, with no retry dimension; a
/// PDF target cannot be produced from pixel data at all.
pub open spec fn encode_fit_spec(pixels: Seq<u8>, fmt: Format, max_bytes: int) -> Result<
    Seq<u8>,
    ConvertError,
> {
    match fmt {
        Format::Jpeg => jpeg_search_from(pixels, max_bytes, 0),
        Format::Png => match png_encoding(pixels) {
            None => Err(ConvertError::EncodeFailure),
            Some(out) => Ok(out),
        },
        Format::Pdf => Err(ConvertError::UnsupportedTargetFormat),
    }
}

/// An executable fit result, seen in the model.
pub open spec fn fit_result_view(r: Result<Vec<u8>, ConvertError>) -> Result<
    Seq<u8>,
    ConvertError,
> {
    match r {
        Ok(v) => Ok(v@),
        Err(e) => Err(e),
    }
}

/// Encode `img` as `fmt` within `max_bytes`. For JPEG the quality is
/// searched from 90% downward in steps of ten percentage points: the
/// first encoding that fits is returned, and after nine oversized
/// attempts the budget is unreachable. PNG is encoded exactly once. The
/// search never changes the format or the dimensions.
pub fn fit_to_size(img: &image::DynamicImage, fmt: Format, max_bytes: u64) -> (r: Result<
    Vec<u8>,
    ConvertError,
>)
    ensures
        fit_result_view(r) == encode_fit_spec(pixel_data(*img), fmt, max_bytes as int),
{
    match fmt {
        Format::Jpeg => {
            let mut i: u8 = 0;
            while i < 9
                invariant
                    fmt == Format::Jpeg,
                    0 <= i <= 9,
                    jpeg_search_from(pixel_data(*img), max_bytes as int, 0) == jpeg_search_from(
                        pixel_data(*img),
                        max_bytes as int,
                        i as int,
                    ),
                decreases 9 - i,
            {
                let quality: u8 = 90 - 10 * i;
                match encode_jpeg(img, quality) {
                    None => {
                        return Err(ConvertError::EncodeFailure);
                    },
                    Some(v) => {
                        if (v.len() as u64) <= max_bytes {
                            return Ok(v);
                        }
                    },
                }
                i = i + 1;
            }
            Err(ConvertError::SizeBudgetUnreachable)
        },
        Format::Png => {
            match encode_png(img) {
                None => Err(ConvertError::EncodeFailure),
                Some(v) => Ok(v),
            }
        },
        Format::Pdf => Err(ConvertError::UnsupportedTargetFormat),
    }
}

/// The size fitting is deterministic: two outcomes of the model on the
/// same pixel content, format and ceiling are identical, so repeated
/// calls of the encode search on identical inputs yield byte-identical
/// output.
pub proof fn lemma_fit_deterministic(
    a: Result<Seq<u8>, ConvertError>,
    b: Result<Seq<u8>, ConvertError>,
    pixels: Seq<u8>,
    fmt: Format,
    max_bytes: int,
)
    requires
        a == encode_fit_spec(pixels, fmt, max_bytes),
        b == encode_fit_spec(pixels, fmt, max_bytes),
    ensures
        a == b,
{
}

/// Step `j` of the search yields an encoding, but one larger than the
/// ceiling.
pub open spec fn jpeg_oversized_at(pixels: Seq<u8>, max_bytes: int, j: int) -> bool {
    jpeg_encoding(pixels, quality_level(j)) matches Some(out) && out.len() > max_bytes
}

proof fn lemma_jpeg_search_exhausted_from(pixels: Seq<u8>, max_bytes: int, i: int)
    requires
        0 <= i <= 9,
    ensures
        jpeg_search_from(pixels, max_bytes, i) == Err::<Seq<u8>, ConvertError>(
            ConvertError::SizeBudgetUnreachable,
        ) <==> forall|j: int| i <= j < 9 ==> #[trigger] jpeg_oversized_at(pixels, max_bytes, j),
    decreases 9 - i,
{
    let exhausted = Err::<Seq<u8>, ConvertError>(ConvertError::SizeBudgetUnreachable);
    if i < 9 {
        lemma_jpeg_search_exhausted_from(pixels, max_bytes, i + 1);
        if jpeg_search_from(pixels, max_bytes, i) == exhausted {
            assert(jpeg_oversized_at(pixels, max_bytes, i));
            assert(jpeg_search_from(pixels, max_bytes, i + 1) == exhausted);
            assert forall|j: int| i <= j < 9 implies #[trigger] jpeg_oversized_at(
                pixels,
                max_bytes,
                j,
            ) by {};
        } else if forall|j: int| i <= j < 9 ==> #[trigger] jpeg_oversized_at(pixels, max_bytes, j) {
            assert(jpeg_oversized_at(pixels, max_bytes, i));
            assert(forall|j: int|
                i + 1 <= j < 9 ==> #[trigger] jpeg_oversized_at(pixels, max_bytes, j));
            assert(jpeg_search_from(pixels, max_bytes, i + 1) == exhausted);
            assert(false);
        }
    }
}

/// The quality search exhausts the budget exactly when every attempted
/// quality level, 90% down to 10%, yields an encoding larger than the
/// ceiling.
pub proof fn lemma_size_budget_unreachable_iff_all_oversized(pixels: Seq<u8>, max_bytes: int)
    ensures
        jpeg_search_from(pixels, max_bytes, 0) == Err::<Seq<u8>, ConvertError>(
            ConvertError::SizeBudgetUnreachable,
        ) <==> forall|j: int| 0 <= j < 9 ==> #[trigger] jpeg_oversized_at(pixels, max_bytes, j),
{
    lemma_jpeg_search_exhausted_from(pixels, max_bytes, 0);
}

/// The byte size the JPEG encoder yields at search step `i`, or -1 where
/// it rejects the image.
pub open spec fn jpeg_size_at(pixels: Seq<u8>, i: int) -> int {
    match jpeg_encoding(pixels, quality_level(i)) {
        Some(out) => out.len() as int,
        None => -1,
    }
}

/// For a codec that accepts the image at every attempted level and whose
/// output size never increases as quality decreases, the budget is
/// unreachable exactly when the lowest attempted quality, 10%, still
/// exceeds the ceiling.
pub proof fn lemma_size_budget_unreachable_iff_lowest_oversized(pixels: Seq<u8>, max_bytes: int)
    requires
        forall|j: int| 0 <= j < 9 ==> (#[trigger] jpeg_encoding(pixels, quality_level(j))) is Some,
        forall|j: int, k: int|
            0 <= j <= k < 9 ==> #[trigger] jpeg_size_at(pixels, k) <= #[trigger] jpeg_size_at(
                pixels,
                j,
            ),
    ensures
        jpeg_search_from(pixels, max_bytes, 0) == Err::<Seq<u8>, ConvertError>(
            ConvertError::SizeBudgetUnreachable,
        ) <==> jpeg_size_at(pixels, 8) > max_bytes,
{
    lemma_size_budget_unreachable_iff_all_oversized(pixels, max_bytes);
    let exhausted = Err::<Seq<u8>, ConvertError>(ConvertError::SizeBudgetUnreachable);
    if jpeg_size_at(pixels, 8) > max_bytes {
        assert forall|j: int| 0 <= j < 9 implies #[trigger] jpeg_oversized_at(
            pixels,
            max_bytes,
            j,
        ) by {
            assert(jpeg_encoding(pixels, quality_level(j)) is Some);
            assert(jpeg_size_at(pixels, 8) <= jpeg_size_at(pixels, j));
        }
        assert(jpeg_search_from(pixels, max_bytes, 0) == exhausted);
    }
    if jpeg_search_from(pixels, max_bytes, 0) == exhausted {
        assert(jpeg_oversized_at(pixels, max_bytes, 8));
    }
}

} // verus!
