//! The conversion pipeline on concrete colors.

use colstodian::encodings::Bt709D65;
use colstodian::encodings::Bt709ReversedD65;
use colstodian::encodings::LinearBgr;
use colstodian::encodings::LinearSrgb;
use colstodian::encodings::LinearSrgbA;
use colstodian::encodings::Repr3;
use colstodian::encodings::Repr4;
use colstodian::fixed::FIXED_ONE;
use colstodian::space::RgbPrimaries;
use colstodian::space::WhitePoint;
use colstodian::vec3::Vec3;
use colstodian::Color;
use colstodian::ColorEncoding;
use colstodian::ColorInto;
use colstodian::LinearColorSpace;
use colstodian::LinearConvertFromRaw;

#[test]
fn convert_same_encoding_is_identity() {
    let c = Color::<LinearSrgb>::new(Repr3 { c0: 1000, c1: 2000, c2: 3000 });
    let d: Color<LinearSrgb> = c.convert();
    assert_eq!(d.repr, Repr3 { c0: 1000, c1: 2000, c2: 3000 });
}

#[test]
fn convert_shared_space_keeps_the_triple() {
    let c = Color::<LinearSrgb>::new(Repr3 { c0: FIXED_ONE, c1: 0, c2: 0 });
    let d: Color<LinearSrgbA> = c.convert();
    assert_eq!(d.repr, Repr4 { c0: FIXED_ONE, c1: 0, c2: 0, c3: FIXED_ONE });
    let back: Color<LinearSrgb> = d.convert();
    assert_eq!(back.repr, Repr3 { c0: FIXED_ONE, c1: 0, c2: 0 });
}

#[test]
fn convert_cross_space_reverses_channels() {
    let c = Color::<LinearSrgb>::new(Repr3 { c0: 17, c1: -5, c2: 9000 });
    let d: Color<LinearBgr> = c.convert();
    assert_eq!(d.repr, Repr3 { c0: 9000, c1: -5, c2: 17 });
}

#[test]
fn convert_cross_space_round_trip_restores_the_color() {
    let c = Color::<LinearSrgb>::new(Repr3 { c0: 17, c1: -5, c2: 9000 });
    let d: Color<LinearBgr> = c.convert();
    let back: Color<LinearSrgb> = d.convert();
    assert_eq!(back.repr, Repr3 { c0: 17, c1: -5, c2: 9000 });
}

#[test]
fn linear_conversion_identity_is_a_no_op() {
    let mut v = Vec3::new(12, -34, 56);
    <Bt709D65 as LinearConvertFromRaw<Bt709D65>>::linear_part_raw(&mut v);
    assert_eq!(v, Vec3 { x: 12, y: -34, z: 56 });
}

#[test]
fn linear_conversion_round_trip_restores_the_vector() {
    let mut v = Vec3 { x: 12, y: -34, z: 56 };
    <Bt709ReversedD65 as LinearConvertFromRaw<Bt709D65>>::linear_part_raw(&mut v);
    assert_eq!(v, Vec3 { x: 56, y: -34, z: 12 });
    <Bt709D65 as LinearConvertFromRaw<Bt709ReversedD65>>::linear_part_raw(&mut v);
    assert_eq!(v, Vec3 { x: 12, y: -34, z: 56 });
}

#[test]
fn color_into_runs_the_same_pipeline() {
    let c = Color::<LinearSrgb>::new(Repr3 { c0: 11, c1: 22, c2: 33 });
    let d: Color<LinearBgr> = c.color_into();
    assert_eq!(d.repr, Repr3 { c0: 33, c1: 22, c2: 11 });
}

#[test]
fn decoding_clamps_alpha_into_the_unit_interval() {
    let decoded = LinearSrgbA::src_transform_raw(Repr4 { c0: 1, c1: 2, c2: 3, c3: 9999 });
    assert_eq!(decoded.0, Vec3 { x: 1, y: 2, z: 3 });
    assert_eq!(decoded.1, FIXED_ONE);
    let decoded = LinearSrgbA::src_transform_raw(Repr4 { c0: 1, c1: 2, c2: 3, c3: -7 });
    assert_eq!(decoded.1, 0);
}

#[test]
fn encoding_without_alpha_decodes_alpha_one() {
    let decoded = LinearSrgb::src_transform_raw(Repr3 { c0: 1, c1: 2, c2: 3 });
    assert_eq!(decoded.0, Vec3 { x: 1, y: 2, z: 3 });
    assert_eq!(decoded.1, FIXED_ONE);
}

#[test]
fn encoding_names() {
    assert_eq!(LinearSrgb::name(), "Linear sRGB");
    assert_eq!(LinearSrgbA::name(), "Linear sRGB + Alpha");
    assert_eq!(LinearBgr::name(), "Linear BGR");
}

#[test]
fn space_identities() {
    assert_eq!(Bt709D65::primaries(), RgbPrimaries::Bt709);
    assert_eq!(Bt709D65::white_point(), WhitePoint::D65);
    assert_eq!(Bt709ReversedD65::primaries(), RgbPrimaries::Bt709Reversed);
    assert_eq!(Bt709ReversedD65::white_point(), WhitePoint::D65);
}
