//! The conversion pipeline: pick a target format for the input kind,
//! run the image path (decode, resolve dimensions, resample, fit to
//! size) or the PDF pass-through with its byte-exact ceiling, then
//! validate the byte-size budget. The validation is the authoritative
//! gate on the budget's floor and on lossless output: the encoder's own
//! quality loop is an optimization that those paths bypass.

use vstd::prelude::*;

use crate::codec::{decode_image, decoded_image, image_dims, resampled, resize_image};
use crate::constraints::{ConvertError, DocumentSpec, Format, InputKind, SizeSpec};
use crate::encoder::{encode_fit_spec, fit_to_size};
use crate::resolver::{resolve, resolved_dims};

verus! {

/// The byte ceiling of a budget, in bytes.
pub open spec fn max_bytes_of(budget: SizeSpec) -> int {
    budget.max * 1024
}

/// The post-conversion validation in the model: the floor is checked
/// first, then the ceiling, both in whole (truncated) kilobytes.
pub open spec fn validate_spec(len: int, budget: SizeSpec) -> Result<(), ConvertError> {
    let kb = len / 1024;
    if budget.min matches Some(m) && kb < m {
        Err(ConvertError::BelowMinimumSize)
    } else if kb > budget.max {
        Err(ConvertError::ExceedsMaximumSize)
    } else {
        Ok(())
    }
}

/// Validate converted output against the size budget: strictly below a
/// configured floor fails with `BelowMinimumSize`, above the ceiling
/// with `ExceedsMaximumSize`, in that order.
pub fn validate(data: &Vec<u8>, budget: &SizeSpec) -> (r: Result<(), ConvertError>)
    ensures
        r == validate_spec(data@.len() as int, *budget),
{
    let kb: usize = data.len() / 1024;
    if let Some(m) = budget.min {
        if kb < m as usize {
            return Err(ConvertError::BelowMinimumSize);
        }
    }
    if kb > budget.max as usize {
        return Err(ConvertError::ExceedsMaximumSize);
    }
    Ok(())
}

/// The target format for an input of the given kind: a raster image
/// takes the first allowed format, or JPEG when the list is empty; a PDF
/// document must have PDF among the allowed formats and passes through
/// as PDF; an unrecognized input is unsupported.
pub open spec fn target_format_spec(input: InputKind, formats: Seq<Format>) -> Result<
    Format,
    ConvertError,
> {
    match input {
        InputKind::RasterImage => Ok(
            if formats.len() == 0 {
                Format::Jpeg
            } else {
                formats[0]
            },
        ),
        InputKind::PdfDocument => if formats.contains(Format::Pdf) {
            Ok(Format::Pdf)
        } else {
            Err(ConvertError::UnsupportedTargetFormat)
        },
        InputKind::Unrecognized => Err(ConvertError::UnsupportedInputType),
    }
}

/// Determine the format the conversion will produce, from the input's
/// kind and the specification's ordered list of allowed formats.
pub fn determine_target_format(input: InputKind, target_spec: &DocumentSpec) -> (r: Result<
    Format,
    ConvertError,
>)
    ensures
        r == target_format_spec(input, target_spec.format@),
{
    match input {
        InputKind::RasterImage => {
            if target_spec.format.len() == 0 {
                Ok(Format::Jpeg)
            } else {
                Ok(target_spec.format[0])
            }
        },
        InputKind::PdfDocument => {
            let mut i: usize = 0;
            while i < target_spec.format.len()
                invariant
                    input == InputKind::PdfDocument,
                    i <= target_spec.format@.len(),
                    forall|k: int| 0 <= k < i ==> target_spec.format@[k] != Format::Pdf,
                decreases target_spec.format@.len() - i,
            {
                if target_spec.format[i] == Format::Pdf {
                    assert(target_spec.format@.contains(Format::Pdf));
                    return Ok(Format::Pdf);
                }
                i += 1;
            }
            assert(!target_spec.format@.contains(Format::Pdf));
            Err(ConvertError::UnsupportedTargetFormat)
        },
        InputKind::Unrecognized => Err(ConvertError::UnsupportedInputType),
    }
}

/// The PDF path performs no re-encoding: it enforces the byte ceiling on
/// the stream exactly as submitted — an oversized document has no quality
/// parameter to lower, so it exceeds the maximum size outright — and
/// otherwise passes the bytes through unchanged to the downstream
/// validation, which still gates the size floor.
pub fn convert_pdf(data: &Vec<u8>, budget: &SizeSpec) -> (r: Result<Vec<u8>, ConvertError>)
    ensures
        data@.len() <= max_bytes_of(*budget) ==> (r matches Ok(v) && v@ == data@),
        data@.len() > max_bytes_of(*budget) ==> r == Err::<Vec<u8>, ConvertError>(
            ConvertError::ExceedsMaximumSize,
        ),
{
    let max_bytes: u64 = (budget.max as u64) * 1024;
    if (data.len() as u64) > max_bytes {
        return Err(ConvertError::ExceedsMaximumSize);
    }
    let mut out: Vec<u8> = Vec::new();
    let mut i: usize = 0;
    while i < data.len()
        invariant
            i <= data@.len(),
            out@ == data@.subrange(0, i as int),
        decreases data@.len() - i,
    {
        out.push(data[i]);
        proof {
            assert(out@ =~= data@.subrange(0, i as int + 1));
        }
        i += 1;
    }
    proof {
        assert(out@ =~= data@);
    }
    Ok(out)
}

/// Whether a resample whose largest buffers are 16 bytes per pixel at
/// `a` by `b` pixels stays within the vector size limit.
pub open spec fn dims_within_buffer_limit(a: int, b: int) -> bool {
    16 * a * b <= isize::MAX as int
}

fn resample_dims_ok(a: u32, b: u32) -> (r: bool)
    ensures
        r == dims_within_buffer_limit(a as int, b as int),
{
    proof {
        assert((16 * (a as int)) * (b as int) <= (16 * (u32::MAX as int)) * (u32::MAX as int))
            by (nonlinear_arith)
            requires
                0 <= a as int <= u32::MAX as int,
                0 <= b as int <= u32::MAX as int,
        ;
    }
    let p: u128 = 16u128 * (a as u128) * (b as u128);
    p <= (isize::MAX as u128)
}

/// The image path in the model: decode, resolve the target dimensions,
/// resample when they differ from the original (where the resampler's
/// buffers stay within the vector size limit), then fit to the byte
/// ceiling.
pub open spec fn convert_image_spec(bytes: Seq<u8>, fmt: Format, target_spec: DocumentSpec) -> Result<
    (Seq<u8>, u32, u32),
    ConvertError,
> {
    match decoded_image(bytes) {
        None => Err(ConvertError::DecodeFailure),
        Some(d) => {
            let dims = resolved_dims(d.1 as int, d.2 as int, target_spec);
            let tw = dims.0 as u32;
            let th = dims.1 as u32;
            let fitted = if tw == d.1 && th == d.2 {
                encode_fit_spec(d.0, fmt, max_bytes_of(target_spec.size_kb))
            } else if !(dims_within_buffer_limit(d.1 as int, th as int)
                && dims_within_buffer_limit(tw as int, th as int)) {
                Err(ConvertError::EncodeFailure)
            } else {
                encode_fit_spec(resampled(d.0, tw, th), fmt, max_bytes_of(target_spec.size_kb))
            };
            match fitted {
                Ok(out) => Ok((out, tw, th)),
                Err(e) => Err(e),
            }
        },
    }
}

/// An executable image-path result, held against the model.
pub open spec fn image_result_matches(
    r: Result<(Vec<u8>, u32, u32), ConvertError>,
    m: Result<(Seq<u8>, u32, u32), ConvertError>,
) -> bool {
    match (r, m) {
        (Ok(v), Ok(s)) => v.0@ == s.0 && v.1 == s.1 && v.2 == s.2,
        (Err(a), Err(b)) => a == b,
        _ => false,
    }
}

/// Convert raster-image bytes to `fmt` under `target_spec`: decode,
/// resolve the target dimensions, resample if they differ from the
/// original, and fit the encoding to the byte ceiling. On success the
/// returned dimensions are exactly the resolved ones.
pub fn convert_image(data: &Vec<u8>, fmt: Format, target_spec: &DocumentSpec) -> (r: Result<
    (Vec<u8>, u32, u32),
    ConvertError,
>)
    requires
        target_spec.ratios_valid(),
    ensures
        image_result_matches(r, convert_image_spec(data@, fmt, *target_spec)),
{
    let img = match decode_image(data) {
        None => {
            return Err(ConvertError::DecodeFailure);
        },
        Some(img) => img,
    };
    let dims = image_dims(&img);
    let w = dims.0;
    let h = dims.1;
    let resolved = resolve(w, h, target_spec);
    let tw = resolved.0;
    let th = resolved.1;
    let max_bytes: u64 = (target_spec.size_kb.max as u64) * 1024;
    if tw == w && th == h {
        match fit_to_size(&img, fmt, max_bytes) {
            Ok(out) => Ok((out, tw, th)),
            Err(e) => Err(e),
        }
    } else if !(resample_dims_ok(w, th) && resample_dims_ok(tw, th)) {
        Err(ConvertError::EncodeFailure)
    } else {
        let resized = resize_image(&img, tw, th);
        match fit_to_size(&resized, fmt, max_bytes) {
            Ok(out) => Ok((out, tw, th)),
            Err(e) => Err(e),
        }
    }
}

/// A successful conversion: the output bytes, the format produced, and
/// the final pixel dimensions where the image path ran.
#[derive(Clone, Debug)]
pub struct Converted {
    pub data: Vec<u8>,
    pub format: Format,
    pub dimensions: Option<(u32, u32)>,
}

/// The whole pipeline in the model: pick the target format, run the
/// image path or the PDF pass-through, then validate the size budget.
pub open spec fn convert_document_spec(
    bytes: Seq<u8>,
    input: InputKind,
    target_spec: DocumentSpec,
) -> Result<(Seq<u8>, Format, Option<(u32, u32)>), ConvertError> {
    match target_format_spec(input, target_spec.format@) {
        Err(e) => Err(e),
        Ok(fmt) => {
            let candidate = match input {
                InputKind::RasterImage => match convert_image_spec(bytes, fmt, target_spec) {
                    Ok(c) => Ok((c.0, Some((c.1, c.2)))),
                    Err(e) => Err(e),
                },
                InputKind::PdfDocument => if bytes.len() > max_bytes_of(target_spec.size_kb) {
                    Err(ConvertError::ExceedsMaximumSize)
                } else {
                    Ok((bytes, None::<(u32, u32)>))
                },
                InputKind::Unrecognized => Err(ConvertError::UnsupportedInputType),
            };
            match candidate {
                Err(e) => Err(e),
                Ok(c) => match validate_spec(c.0.len() as int, target_spec.size_kb) {
                    Err(e) => Err(e),
                    Ok(u) => Ok((c.0, fmt, c.1)),
                },
            }
        },
    }
}

/// An executable conversion outcome, held against the model.
pub open spec fn document_result_matches(
    r: Result<Converted, ConvertError>,
    m: Result<(Seq<u8>, Format, Option<(u32, u32)>), ConvertError>,
) -> bool {
    match (r, m) {
        (Ok(c), Ok(s)) => c.data@ == s.0 && c.format == s.1 && c.dimensions == s.2,
        (Err(a), Err(b)) => a == b,
        _ => false,
    }
}

/// The synchronous conversion entry point: takes the submitted bytes,
/// their kind as classified by the host, and the target specification;
/// returns the converted bytes with format and final dimensions, or the
/// single terminal failure reason for the job.
pub fn convert_document(data: &Vec<u8>, input: InputKind, target_spec: &DocumentSpec) -> (r:
    Result<Converted, ConvertError>)
    requires
        target_spec.ratios_valid(),
    ensures
        document_result_matches(r, convert_document_spec(data@, input, *target_spec)),
{
    let fmt = match determine_target_format(input, target_spec) {
        Ok(f) => f,
        Err(e) => {
            return Err(e);
        },
    };
    let pair = match input {
        InputKind::RasterImage => {
            match convert_image(data, fmt, target_spec) {
                Ok(c) => (c.0, Some((c.1, c.2))),
                Err(e) => {
                    return Err(e);
                },
            }
        },
        InputKind::PdfDocument => {
            match convert_pdf(data, &target_spec.size_kb) {
                Ok(v) => (v, None),
                Err(e) => {
                    return Err(e);
                },
            }
        },
        InputKind::Unrecognized => {
            return Err(ConvertError::UnsupportedInputType);
        },
    };
    let out = pair.0;
    let dims = pair.1;
    match validate(&out, &target_spec.size_kb) {
        Ok(u) => Ok(Converted { data: out, format: fmt, dimensions: dims }),
        Err(e) => Err(e),
    }
}

} // verus!
