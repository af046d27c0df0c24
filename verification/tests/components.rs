//! Component views of raw representations, and the exact scalar
//! helpers underneath them.

use colstodian::encodings::Bgr;
use colstodian::encodings::Repr3;
use colstodian::encodings::Repr4;
use colstodian::encodings::Rgb;
use colstodian::encodings::Rgba;
use colstodian::fixed::div_floor;
use colstodian::fixed::fixed_clamp_unit;
use colstodian::fixed::FIXED_ONE;
use colstodian::ComponentStructFor;

#[test]
fn rgb_view_reports_the_raw_components_in_order() {
    let raw = Repr3 { c0: 101, c1: 202, c2: 303 };
    let view = Rgb::cast(&raw);
    assert_eq!(view.r, raw.c0);
    assert_eq!(view.g, raw.c1);
    assert_eq!(view.b, raw.c2);
}

#[test]
fn rgba_view_reports_the_raw_components_in_order() {
    let raw = Repr4 { c0: 1, c1: 2, c2: 3, c3: 4 };
    let view = Rgba::cast(&raw);
    assert_eq!(view.r, raw.c0);
    assert_eq!(view.g, raw.c1);
    assert_eq!(view.b, raw.c2);
    assert_eq!(view.a, raw.c3);
}

#[test]
fn bgr_view_reports_blue_first() {
    let raw = Repr3 { c0: 11, c1: 22, c2: 33 };
    let view = Bgr::cast(&raw);
    assert_eq!(view.b, raw.c0);
    assert_eq!(view.g, raw.c1);
    assert_eq!(view.r, raw.c2);
}

#[test]
fn writing_a_view_back_updates_the_raw_storage() {
    let mut raw = Repr3 { c0: 0, c1: 0, c2: 0 };
    Rgb::cast_mut(&mut raw, Rgb { r: 7, g: 8, b: 9 });
    assert_eq!(raw, Repr3 { c0: 7, c1: 8, c2: 9 });
    let roundtrip = Rgb::cast(&raw);
    assert_eq!(roundtrip.r, 7);
    assert_eq!(roundtrip.g, 8);
    assert_eq!(roundtrip.b, 9);
}

#[test]
fn div_floor_rounds_toward_negative_infinity() {
    assert_eq!(div_floor(5, 4096), 0);
    assert_eq!(div_floor(8192, 4096), 2);
    assert_eq!(div_floor(-5, 4096), -1);
    assert_eq!(div_floor(-4096, 4096), -1);
    assert_eq!(div_floor(-4097, 4096), -2);
}

#[test]
fn fixed_clamp_unit_clamps_both_ends() {
    assert_eq!(fixed_clamp_unit(-1), 0);
    assert_eq!(fixed_clamp_unit(0), 0);
    assert_eq!(fixed_clamp_unit(1234), 1234);
    assert_eq!(fixed_clamp_unit(FIXED_ONE), FIXED_ONE);
    assert_eq!(fixed_clamp_unit(FIXED_ONE + 1), FIXED_ONE);
}
