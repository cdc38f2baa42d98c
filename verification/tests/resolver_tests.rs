use docfit::constraints::{
    AspectRatioSpec, DimensionsSpec, DocumentSpec, Format, PixelDimensions, PixelSpec, Ratio,
    SizeSpec,
};
use docfit::resolver::resolve;

fn empty_spec() -> DocumentSpec {
    DocumentSpec {
        format: Vec::<Format>::new(),
        size_kb: SizeSpec { min: None, max: 100 },
        dimensions_cm: None,
        dimensions_mm: None,
        pixels: None,
        aspect_ratio: None,
        resolution_px_per_inch: None,
    }
}

fn empty_pixels() -> PixelSpec {
    PixelSpec {
        width: None,
        height: None,
        min_width: None,
        min_height: None,
        max_width: None,
        max_height: None,
        min: None,
        max: None,
    }
}

#[test]
fn exact_pixels_override_any_aspect() {
    let mut ds = empty_spec();
    ds.pixels = Some(PixelSpec { width: Some(600), height: Some(800), ..empty_pixels() });
    assert_eq!(resolve(4000, 3000, &ds), (600, 800));
    assert_eq!(resolve(10, 9000, &ds), (600, 800));
    assert_eq!(resolve(1, 1, &ds), (600, 800));
}

#[test]
fn width_range_clamps_and_preserves() {
    let mut ds = empty_spec();
    ds.pixels = Some(PixelSpec {
        min_width: Some(100),
        max_width: Some(200),
        ..empty_pixels()
    });
    assert_eq!(resolve(50, 300, &ds), (100, 300));
    assert_eq!(resolve(250, 300, &ds), (200, 300));
    assert_eq!(resolve(150, 300, &ds), (150, 300));
}

#[test]
fn nested_pixel_pairs_supply_bounds() {
    let mut ds = empty_spec();
    ds.pixels = Some(PixelSpec {
        min: Some(PixelDimensions { width: 100, height: 120 }),
        max: Some(PixelDimensions { width: 200, height: 240 }),
        ..empty_pixels()
    });
    assert_eq!(resolve(50, 500, &ds), (100, 240));
    assert_eq!(resolve(170, 130, &ds), (170, 130));
}

#[test]
fn direct_bounds_win_over_nested_pairs() {
    let mut ds = empty_spec();
    ds.pixels = Some(PixelSpec {
        min_width: Some(150),
        min: Some(PixelDimensions { width: 100, height: 120 }),
        ..empty_pixels()
    });
    assert_eq!(resolve(50, 50, &ds), (150, 120));
}

#[test]
fn mm_wins_over_cm() {
    let mut ds = empty_spec();
    ds.dimensions_cm = Some(DimensionsSpec { width_centi: 1000, height_centi: 2000 });
    ds.dimensions_mm = Some(DimensionsSpec { width_centi: 3500, height_centi: 4500 });
    ds.resolution_px_per_inch = Some(254);
    // 35.00 mm at 254 dpi: 3500 * 254 / 2540 = 350; 45.00 mm -> 450.
    assert_eq!(resolve(10, 10, &ds), (350, 450));
}

#[test]
fn cm_alone_applies_at_default_dpi() {
    let mut ds = empty_spec();
    // 2.54 cm at the default 150 dpi is exactly 150 px.
    ds.dimensions_cm = Some(DimensionsSpec { width_centi: 254, height_centi: 508 });
    assert_eq!(resolve(9999, 1, &ds), (150, 300));
}

#[test]
fn physical_size_overrides_pixel_layer() {
    let mut ds = empty_spec();
    ds.pixels = Some(PixelSpec { width: Some(600), height: Some(800), ..empty_pixels() });
    ds.dimensions_mm = Some(DimensionsSpec { width_centi: 2540, height_centi: 2540 });
    ds.resolution_px_per_inch = Some(100);
    // 25.40 mm at 100 dpi is 100 px, overriding the exact pixel pair.
    assert_eq!(resolve(4000, 3000, &ds), (100, 100));
}

#[test]
fn degenerate_input_clamps_to_one() {
    let ds = empty_spec();
    assert_eq!(resolve(0, 0, &ds), (1, 1));
    let mut exact = empty_spec();
    exact.pixels = Some(PixelSpec { width: Some(0), height: Some(5), ..empty_pixels() });
    assert_eq!(resolve(40, 40, &exact), (1, 5));
    let mut mm = empty_spec();
    mm.dimensions_mm = Some(DimensionsSpec { width_centi: 0, height_centi: 1 });
    assert_eq!(resolve(40, 40, &mm), (1, 1));
}

#[test]
fn square_aspect_raises_narrow_axis() {
    let mut ds = empty_spec();
    ds.aspect_ratio = Some(AspectRatioSpec {
        min: Some(Ratio { num: 1, den: 1 }),
        max: Some(Ratio { num: 1, den: 1 }),
        height_to_width_min: None,
        height_to_width_max: None,
    });
    // 3000/2000 exceeds the max ratio 1, so height is recomputed as 3000/1.
    assert_eq!(resolve(3000, 2000, &ds), (3000, 3000));
    // 2000/3000 is below the min ratio 1, so width is recomputed as 3000*1.
    assert_eq!(resolve(2000, 3000, &ds), (3000, 3000));
}

#[test]
fn wide_ratio_bounds_correct_one_axis() {
    let mut ds = empty_spec();
    ds.aspect_ratio = Some(AspectRatioSpec {
        // Allowed width/height between 4/3 and 3/2.
        min: Some(Ratio { num: 4, den: 3 }),
        max: Some(Ratio { num: 3, den: 2 }),
        height_to_width_min: None,
        height_to_width_max: None,
    });
    // 1000/1000 < 4/3: width becomes 1000*4/3 = 1333 (truncated).
    assert_eq!(resolve(1000, 1000, &ds), (1333, 1000));
    // 2000/1000 > 3/2: height becomes 2000*2/3 = 1333 (truncated).
    assert_eq!(resolve(2000, 1000, &ds), (2000, 1333));
    // 1400/1000 lies inside the band and is untouched.
    assert_eq!(resolve(1400, 1000, &ds), (1400, 1000));
}

#[test]
fn height_to_width_bounds_rewrite_height() {
    let mut ds = empty_spec();
    ds.aspect_ratio = Some(AspectRatioSpec {
        min: None,
        max: None,
        // Height must be between 1x and 2x the width.
        height_to_width_min: Some(Ratio { num: 1, den: 1 }),
        height_to_width_max: Some(Ratio { num: 2, den: 1 }),
    });
    assert_eq!(resolve(1000, 500, &ds), (1000, 1000));
    assert_eq!(resolve(1000, 2500, &ds), (1000, 2000));
    assert_eq!(resolve(1000, 1500, &ds), (1000, 1500));
}

#[test]
fn second_ratio_check_overwrites_first() {
    let mut ds = empty_spec();
    ds.aspect_ratio = Some(AspectRatioSpec {
        // Width/height above 2 forces height to width/2 ...
        min: Some(Ratio { num: 1, den: 1 }),
        max: Some(Ratio { num: 2, den: 1 }),
        // ... but the height/width band then rewrites height again.
        height_to_width_min: Some(Ratio { num: 1, den: 1 }),
        height_to_width_max: Some(Ratio { num: 3, den: 1 }),
    });
    // 3000/1000 > 2: height := 1500. Then 1500/3000 < 1: height := 3000.
    assert_eq!(resolve(3000, 1000, &ds), (3000, 3000));
}
