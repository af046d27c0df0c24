//! The capability operations on concrete colors: saturation, blending
//! and alpha compositing.

use colstodian::encodings::LinearSrgb;
use colstodian::encodings::LinearSrgbA;
use colstodian::encodings::Repr3;
use colstodian::encodings::Repr4;
use colstodian::fixed::FIXED_ONE;
use colstodian::AlphaComposite;
use colstodian::AlphaOver;
use colstodian::Blend;
use colstodian::Color;
use colstodian::LinearInterpolate;
use colstodian::Saturate;

#[test]
fn saturate_clamps_into_the_unit_interval() {
    let r = <LinearSrgb as Saturate>::saturate(Repr3 { c0: -5, c1: 5000, c2: 100 });
    assert_eq!(r, Repr3 { c0: 0, c1: FIXED_ONE, c2: 100 });
}

#[test]
fn saturate_is_idempotent() {
    let x = Repr3 { c0: -123456, c1: 777777, c2: 2048 };
    let once = <LinearSrgb as Saturate>::saturate(x);
    let twice = <LinearSrgb as Saturate>::saturate(once);
    assert_eq!(twice, once);
}

#[test]
fn saturate_with_alpha_clamps_all_four_components() {
    let r = <LinearSrgbA as Saturate>::saturate(Repr4 { c0: -1, c1: 4097, c2: 7, c3: 9999 });
    assert_eq!(r, Repr4 { c0: 0, c1: FIXED_ONE, c2: 7, c3: FIXED_ONE });
}

#[test]
fn blend_by_zero_returns_from() {
    let from = Repr3 { c0: 100, c1: -200, c2: 300 };
    let to = Repr3 { c0: 4000, c1: 4000, c2: 4000 };
    assert_eq!(<LinearSrgb as Blend>::blend(from, to, 0), from);
}

#[test]
fn blend_by_one_returns_to() {
    let from = Repr3 { c0: 100, c1: -200, c2: 300 };
    let to = Repr3 { c0: 4000, c1: 4000, c2: 4000 };
    assert_eq!(<LinearSrgb as Blend>::blend(from, to, FIXED_ONE), to);
}

#[test]
fn blend_midpoint_is_exact() {
    let from = Repr3 { c0: 0, c1: 0, c2: 0 };
    let to = Repr3 { c0: 4096, c1: 2048, c2: -4096 };
    let half = FIXED_ONE / 2;
    assert_eq!(
        <LinearSrgb as Blend>::blend(from, to, half),
        Repr3 { c0: 2048, c1: 1024, c2: -2048 }
    );
}

#[test]
fn blend_factor_beyond_one_extrapolates() {
    let from = Repr3 { c0: 0, c1: 0, c2: 0 };
    let to = Repr3 { c0: 4096, c1: 0, c2: 0 };
    let twice = 2 * FIXED_ONE;
    assert_eq!(
        <LinearSrgb as Blend>::blend(from, to, twice),
        Repr3 { c0: 8192, c1: 0, c2: 0 }
    );
}

#[test]
fn blend_with_alpha_blends_all_four_components() {
    let from = Repr4 { c0: 0, c1: 0, c2: 0, c3: 0 };
    let to = Repr4 { c0: 4096, c1: 4096, c2: 4096, c3: 4096 };
    let half = FIXED_ONE / 2;
    assert_eq!(
        <LinearSrgbA as Blend>::blend(from, to, half),
        Repr4 { c0: 2048, c1: 2048, c2: 2048, c3: 2048 }
    );
}

#[test]
fn composite_fully_opaque_over_absorbs_under() {
    let over = Repr4 { c0: 1000, c1: 2000, c2: 3000, c3: FIXED_ONE };
    let under = Repr4 { c0: 5, c1: 6, c2: 7, c3: FIXED_ONE };
    assert_eq!(<LinearSrgbA as AlphaComposite>::composite(over, under), over);
}

#[test]
fn composite_fully_transparent_over_keeps_under() {
    let over = Repr4 { c0: 1000, c1: 2000, c2: 3000, c3: 0 };
    let under = Repr4 { c0: 5, c1: 6, c2: 7, c3: 2048 };
    assert_eq!(<LinearSrgbA as AlphaComposite>::composite(over, under), under);
}

#[test]
fn composite_half_transparent_over_opaque_under_is_exact() {
    let over = Repr4 { c0: 4096, c1: 0, c2: 0, c3: 2048 };
    let under = Repr4 { c0: 0, c1: 0, c2: 0, c3: FIXED_ONE };
    assert_eq!(
        <LinearSrgbA as AlphaComposite>::composite(over, under),
        Repr4 { c0: 2048, c1: 0, c2: 0, c3: FIXED_ONE }
    );
}

#[test]
fn alpha_over_composites_whole_colors() {
    let over = Color::<LinearSrgbA>::new(Repr4 { c0: 9, c1: 8, c2: 7, c3: FIXED_ONE });
    let under = Color::<LinearSrgbA>::new(Repr4 { c0: 1, c1: 2, c2: 3, c3: FIXED_ONE });
    let out = <LinearSrgbA as AlphaOver>::composite(over, under);
    assert_eq!(out.repr, Repr4 { c0: 9, c1: 8, c2: 7, c3: FIXED_ONE });
}

#[test]
fn lerp_interpolates_colors_by_blending_reprs() {
    let from = Color::<LinearSrgb>::new(Repr3 { c0: 0, c1: 0, c2: 0 });
    let to = Color::<LinearSrgb>::new(Repr3 { c0: 4096, c1: 2048, c2: 1024 });
    let half = FIXED_ONE / 2;
    let mid = <LinearSrgb as LinearInterpolate>::lerp(from, to, half);
    assert_eq!(mid.repr, Repr3 { c0: 2048, c1: 1024, c2: 512 });
}
