//! The data model of a conversion job: the target specification a caller
//! supplies, the closed set of output formats, and the failure reasons a
//! job can end with.

use vstd::prelude::*;

verus! {

/// Output formats the converter can produce. `Jpeg` carries an adjustable
/// quality parameter, `Png` encodes once at a fixed setting, and `Pdf` is a
/// pass-through format: its bytes are never re-encoded, only size-checked.
#[derive(Clone, Copy, PartialEq, Eq, Structural, Debug)]
pub enum Format {
    Jpeg,
    Png,
    Pdf,
}

/// How the host classified the submitted bytes before handing them over.
#[derive(Clone, Copy, PartialEq, Eq, Structural, Debug)]
pub enum InputKind {
    RasterImage,
    PdfDocument,
    Unrecognized,
}

/// The single failure reason a conversion job ends with. Every error is
/// terminal for the job; nothing is retried past the bounded quality search.
#[derive(Clone, Copy, PartialEq, Eq, Structural, Debug)]
pub enum ConvertError {
    UnsupportedInputType,
    UnsupportedTargetFormat,
    DecodeFailure,
    EncodeFailure,
    SizeBudgetUnreachable,
    BelowMinimumSize,
    ExceedsMaximumSize,
}

/// Byte-size budget in kilobytes: an optional floor and a mandatory ceiling.
#[derive(Clone, Copy, Debug)]
pub struct SizeSpec {
    pub min: Option<u32>,
    pub max: u32,
}

impl SizeSpec {
    /// The budget is well formed when the floor, if present, does not
    /// exceed the ceiling.
    pub open spec fn wf(self) -> bool {
        self.min matches Some(m) ==> m <= self.max
    }
}

/// Physical dimensions in hundredths of a length unit. A value used as
/// `dimensions_cm` counts hundredths of a centimetre; one used as
/// `dimensions_mm` counts hundredths of a millimetre.
#[derive(Clone, Copy, Debug)]
pub struct DimensionsSpec {
    pub width_centi: u32,
    pub height_centi: u32,
}

/// An exact pixel pair, usable as the nested `min`/`max` form of a range
/// constraint.
#[derive(Clone, Copy, Debug)]
pub struct PixelDimensions {
    pub width: u32,
    pub height: u32,
}

/// Pixel constraint: either exact (both `width` and `height` given) or a
/// range, where each bound may be given directly or through the nested
/// `min`/`max` pairs; unspecified bounds default to `[1, u32::MAX]`.
#[derive(Clone, Copy, Debug)]
pub struct PixelSpec {
    pub width: Option<u32>,
    pub height: Option<u32>,
    pub min_width: Option<u32>,
    pub min_height: Option<u32>,
    pub max_width: Option<u32>,
    pub max_height: Option<u32>,
    pub min: Option<PixelDimensions>,
    pub max: Option<PixelDimensions>,
}

/// A positive rational, standing for a bound on a dimension ratio.
#[derive(Clone, Copy, Debug)]
pub struct Ratio {
    pub num: u32,
    pub den: u32,
}

impl Ratio {
    pub open spec fn valid(self) -> bool {
        self.num >= 1 && self.den >= 1
    }
}

/// Bounds on the width/height ratio (`min`, `max`) and on the
/// height/width ratio (`height_to_width_min`, `height_to_width_max`).
/// A pair only takes effect when both of its ends are present.
#[derive(Clone, Copy, Debug)]
pub struct AspectRatioSpec {
    pub min: Option<Ratio>,
    pub max: Option<Ratio>,
    pub height_to_width_min: Option<Ratio>,
    pub height_to_width_max: Option<Ratio>,
}

impl AspectRatioSpec {
    pub open spec fn valid(self) -> bool {
        &&& (self.min matches Some(r) ==> r.valid())
        &&& (self.max matches Some(r) ==> r.valid())
        &&& (self.height_to_width_min matches Some(r) ==> r.valid())
        &&& (self.height_to_width_max matches Some(r) ==> r.valid())
    }
}

/// The target specification of a conversion job, supplied once per job and
/// treated as read-only for its duration.
#[derive(Clone, Debug)]
pub struct DocumentSpec {
    /// Allowed output formats, first preferred.
    pub format: Vec<Format>,
    /// Byte-size floor and ceiling in kilobytes.
    pub size_kb: SizeSpec,
    /// Optional physical size in hundredths of a centimetre.
    pub dimensions_cm: Option<DimensionsSpec>,
    /// Optional physical size in hundredths of a millimetre; when both
    /// physical sizes are present this one is applied last and wins.
    pub dimensions_mm: Option<DimensionsSpec>,
    /// Optional pixel constraint.
    pub pixels: Option<PixelSpec>,
    /// Optional aspect-ratio constraint.
    pub aspect_ratio: Option<AspectRatioSpec>,
    /// DPI used by the physical-size layer; 150 when absent.
    pub resolution_px_per_inch: Option<u32>,
}

impl DocumentSpec {
    /// Ratio bounds, where present, are positive rationals.
    pub open spec fn ratios_valid(self) -> bool {
        self.aspect_ratio matches Some(a) ==> a.valid()
    }

    /// A well-formed specification: valid ratio bounds and a consistent
    /// size budget.
    pub open spec fn wf(self) -> bool {
        &&& self.ratios_valid()
        &&& self.size_kb.wf()
    }
}

} // verus!
