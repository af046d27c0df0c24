//! A small built-in family of representations, component views,
//! linear spaces and encodings.  It exercises every interface of the
//! core and discharges every law the interfaces demand; a real
//! deployment supplies its own tables of primaries, white points and
//! conversion matrices through the same traits.

use vstd::prelude::*;
use crate::capability::AlphaComposite;
use crate::capability::Blend;
use crate::capability::Saturate;
use crate::convert::ConvertFrom;
use crate::encoding::ColorEncoding;
use crate::encoding::ColorRepr;
use crate::encoding::ComponentStructFor;
use crate::encoding::WorkingEncoding;
use crate::fixed::FIXED_ONE;
use crate::fixed::blend_comp;
use crate::fixed::blend_comp_spec;
use crate::fixed::div_floor;
use crate::fixed::fixed_clamp_unit;
use crate::fixed::fixed_clamp_unit_spec;
use crate::fixed::fixed_in_range;
use crate::fixed::fixed_scale;
use crate::fixed::fixed_scale_spec;
use crate::fixed::lemma_blend_comp_one;
use crate::fixed::lemma_blend_comp_zero;
use crate::fixed::lemma_fixed_scale_one;
use crate::fixed::lemma_fixed_scale_range;
use crate::fixed::lemma_fixed_scale_unit;
use crate::fixed::lemma_fixed_scale_zero;
use crate::space::LinearColorSpace;
use crate::space::LinearConvertFromRaw;
use crate::space::RgbPrimaries;
use crate::space::WhitePoint;
use crate::vec3::Vec3;

verus! {

/// Raw storage of three scalar components.
#[derive(Clone, Copy, PartialEq, Eq, Structural, Debug)]
pub struct Repr3 {
    pub c0: i64,
    pub c1: i64,
    pub c2: i64,
}

impl ColorRepr for Repr3 {
    type Element = i64;
}

impl Repr3 {
    /// All components lie in the operating range of the scalar.
    pub open spec fn in_range(self) -> bool {
        fixed_in_range(self.c0 as int) && fixed_in_range(self.c1 as int) && fixed_in_range(
            self.c2 as int,
        )
    }
}

/// Raw storage of three scalar components plus an alpha component.
#[derive(Clone, Copy, PartialEq, Eq, Structural, Debug)]
pub struct Repr4 {
    pub c0: i64,
    pub c1: i64,
    pub c2: i64,
    pub c3: i64,
}

impl ColorRepr for Repr4 {
    type Element = i64;
}

impl Repr4 {
    /// All components lie in the operating range of the scalar.
    pub open spec fn in_range(self) -> bool {
        fixed_in_range(self.c0 as int) && fixed_in_range(self.c1 as int) && fixed_in_range(
            self.c2 as int,
        ) && fixed_in_range(self.c3 as int)
    }
}

/// The red/green/blue view of a [`Repr3`].
#[derive(Clone, Copy, PartialEq, Eq, Structural, Debug)]
pub struct Rgb {
    pub r: i64,
    pub g: i64,
    pub b: i64,
}

impl ComponentStructFor<Repr3> for Rgb {
    open spec fn cast_spec(repr: Repr3) -> Rgb {
        Rgb { r: repr.c0, g: repr.c1, b: repr.c2 }
    }

    open spec fn uncast_spec(s: Rgb) -> Repr3 {
        Repr3 { c0: s.r, c1: s.g, c2: s.b }
    }

    proof fn lemma_cast_bijective(repr: Repr3, s: Rgb) {
    }

    fn cast(repr: &Repr3) -> Rgb {
        Rgb { r: repr.c0, g: repr.c1, b: repr.c2 }
    }

    fn cast_mut(repr: &mut Repr3, s: Rgb) {
        repr.c0 = s.r;
        repr.c1 = s.g;
        repr.c2 = s.b;
    }
}

/// The blue/green/red view of a [`Repr3`] that stores blue first.
#[derive(Clone, Copy, PartialEq, Eq, Structural, Debug)]
pub struct Bgr {
    pub b: i64,
    pub g: i64,
    pub r: i64,
}

impl ComponentStructFor<Repr3> for Bgr {
    open spec fn cast_spec(repr: Repr3) -> Bgr {
        Bgr { b: repr.c0, g: repr.c1, r: repr.c2 }
    }

    open spec fn uncast_spec(s: Bgr) -> Repr3 {
        Repr3 { c0: s.b, c1: s.g, c2: s.r }
    }

    proof fn lemma_cast_bijective(repr: Repr3, s: Bgr) {
    }

    fn cast(repr: &Repr3) -> Bgr {
        Bgr { b: repr.c0, g: repr.c1, r: repr.c2 }
    }

    fn cast_mut(repr: &mut Repr3, s: Bgr) {
        repr.c0 = s.b;
        repr.c1 = s.g;
        repr.c2 = s.r;
    }
}

/// The red/green/blue/alpha view of a [`Repr4`].
#[derive(Clone, Copy, PartialEq, Eq, Structural, Debug)]
pub struct Rgba {
    pub r: i64,
    pub g: i64,
    pub b: i64,
    pub a: i64,
}

impl ComponentStructFor<Repr4> for Rgba {
    open spec fn cast_spec(repr: Repr4) -> Rgba {
        Rgba { r: repr.c0, g: repr.c1, b: repr.c2, a: repr.c3 }
    }

    open spec fn uncast_spec(s: Rgba) -> Repr4 {
        Repr4 { c0: s.r, c1: s.g, c2: s.b, c3: s.a }
    }

    proof fn lemma_cast_bijective(repr: Repr4, s: Rgba) {
    }

    fn cast(repr: &Repr4) -> Rgba {
        Rgba { r: repr.c0, g: repr.c1, b: repr.c2, a: repr.c3 }
    }

    fn cast_mut(repr: &mut Repr4, s: Rgba) {
        repr.c0 = s.r;
        repr.c1 = s.g;
        repr.c2 = s.b;
        repr.c3 = s.a;
    }
}

/// The linear space of sRGB: BT.709 primaries under a D65 white point.
pub struct Bt709D65;

impl LinearColorSpace for Bt709D65 {
    open spec fn primaries_spec() -> RgbPrimaries {
        RgbPrimaries::Bt709
    }

    open spec fn white_point_spec() -> WhitePoint {
        WhitePoint::D65
    }

    fn primaries() -> RgbPrimaries {
        RgbPrimaries::Bt709
    }

    fn white_point() -> WhitePoint {
        WhitePoint::D65
    }
}

/// The same chromaticities as [`Bt709D65`] with the primaries listed
/// in reverse channel order, so the conversion between the two spaces
/// is exactly a channel reversal.
pub struct Bt709ReversedD65;

impl LinearColorSpace for Bt709ReversedD65 {
    open spec fn primaries_spec() -> RgbPrimaries {
        RgbPrimaries::Bt709Reversed
    }

    open spec fn white_point_spec() -> WhitePoint {
        WhitePoint::D65
    }

    fn primaries() -> RgbPrimaries {
        RgbPrimaries::Bt709Reversed
    }

    fn white_point() -> WhitePoint {
        WhitePoint::D65
    }
}

impl LinearConvertFromRaw<Bt709D65> for Bt709D65 {
    open spec fn vec_in_domain(v: Vec3) -> bool {
        true
    }

    open spec fn convert_spec(v: Vec3) -> Vec3 {
        v
    }

    open spec fn inverse_spec(v: Vec3) -> Vec3 {
        v
    }

    proof fn lemma_convert_invertible(v: Vec3) {
    }

    proof fn lemma_same_space_identity(v: Vec3) {
    }

    fn linear_part_raw(raw: &mut Vec3) {
    }
}

/// The linear map reversing the channel order of a vector.
pub open spec fn reverse_spec(v: Vec3) -> Vec3 {
    Vec3 { x: v.z, y: v.y, z: v.x }
}

impl LinearConvertFromRaw<Bt709D65> for Bt709ReversedD65 {
    open spec fn vec_in_domain(v: Vec3) -> bool {
        true
    }

    open spec fn convert_spec(v: Vec3) -> Vec3 {
        reverse_spec(v)
    }

    open spec fn inverse_spec(v: Vec3) -> Vec3 {
        reverse_spec(v)
    }

    proof fn lemma_convert_invertible(v: Vec3) {
    }

    proof fn lemma_same_space_identity(v: Vec3) {
    }

    fn linear_part_raw(raw: &mut Vec3) {
        let t = raw.x;
        raw.x = raw.z;
        raw.z = t;
    }
}

impl LinearConvertFromRaw<Bt709ReversedD65> for Bt709D65 {
    open spec fn vec_in_domain(v: Vec3) -> bool {
        true
    }

    open spec fn convert_spec(v: Vec3) -> Vec3 {
        reverse_spec(v)
    }

    open spec fn inverse_spec(v: Vec3) -> Vec3 {
        reverse_spec(v)
    }

    proof fn lemma_convert_invertible(v: Vec3) {
    }

    proof fn lemma_same_space_identity(v: Vec3) {
    }

    fn linear_part_raw(raw: &mut Vec3) {
        let t = raw.x;
        raw.x = raw.z;
        raw.z = t;
    }
}

/// A color in the linear sRGB space, stored red first, without alpha.
pub struct LinearSrgb;

impl ColorEncoding for LinearSrgb {
    type Repr = Repr3;

    type ComponentStruct = Rgb;

    type LinearSpace = Bt709D65;

    open spec fn name_spec() -> Seq<char> {
        "Linear sRGB"@
    }

    open spec fn in_domain(repr: Repr3) -> bool {
        true
    }

    open spec fn src_transform_spec(repr: Repr3) -> (Vec3, i64) {
        (Vec3 { x: repr.c0, y: repr.c1, z: repr.c2 }, FIXED_ONE)
    }

    open spec fn dst_transform_spec(raw: Vec3, alpha: i64) -> Repr3 {
        Repr3 { c0: raw.x, c1: raw.y, c2: raw.z }
    }

    proof fn lemma_alpha_in_unit(repr: Repr3) {
    }

    proof fn lemma_transform_inverse(repr: Repr3) {
    }

    fn name() -> &'static str {
        "Linear sRGB"
    }

    fn src_transform_raw(repr: Repr3) -> (Vec3, i64) {
        (Vec3 { x: repr.c0, y: repr.c1, z: repr.c2 }, FIXED_ONE)
    }

    fn dst_transform_raw(raw: Vec3, alpha: i64) -> Repr3 {
        Repr3 { c0: raw.x, c1: raw.y, c2: raw.z }
    }
}

impl WorkingEncoding for LinearSrgb {

}

/// A color in the linear sRGB space with a separate, not
/// pre-multiplied alpha component; the alpha is clamped into the unit
/// interval when the color is decoded.
pub struct LinearSrgbA;

impl ColorEncoding for LinearSrgbA {
    type Repr = Repr4;

    type ComponentStruct = Rgba;

    type LinearSpace = Bt709D65;

    open spec fn name_spec() -> Seq<char> {
        "Linear sRGB + Alpha"@
    }

    open spec fn in_domain(repr: Repr4) -> bool {
        repr.in_range() && 0 <= repr.c3 <= FIXED_ONE
    }

    open spec fn src_transform_spec(repr: Repr4) -> (Vec3, i64) {
        (Vec3 { x: repr.c0, y: repr.c1, z: repr.c2 }, fixed_clamp_unit_spec(repr.c3))
    }

    open spec fn dst_transform_spec(raw: Vec3, alpha: i64) -> Repr4 {
        Repr4 { c0: raw.x, c1: raw.y, c2: raw.z, c3: alpha }
    }

    proof fn lemma_alpha_in_unit(repr: Repr4) {
    }

    proof fn lemma_transform_inverse(repr: Repr4) {
    }

    fn name() -> &'static str {
        "Linear sRGB + Alpha"
    }

    fn src_transform_raw(repr: Repr4) -> (Vec3, i64) {
        (Vec3 { x: repr.c0, y: repr.c1, z: repr.c2 }, fixed_clamp_unit(repr.c3))
    }

    fn dst_transform_raw(raw: Vec3, alpha: i64) -> Repr4 {
        Repr4 { c0: raw.x, c1: raw.y, c2: raw.z, c3: alpha }
    }
}

impl WorkingEncoding for LinearSrgbA {

}

/// A color in the channel-reversed twin of the linear sRGB space,
/// stored blue first, without alpha.
pub struct LinearBgr;

impl ColorEncoding for LinearBgr {
    type Repr = Repr3;

    type ComponentStruct = Bgr;

    type LinearSpace = Bt709ReversedD65;

    open spec fn name_spec() -> Seq<char> {
        "Linear BGR"@
    }

    open spec fn in_domain(repr: Repr3) -> bool {
        true
    }

    open spec fn src_transform_spec(repr: Repr3) -> (Vec3, i64) {
        (Vec3 { x: repr.c0, y: repr.c1, z: repr.c2 }, FIXED_ONE)
    }

    open spec fn dst_transform_spec(raw: Vec3, alpha: i64) -> Repr3 {
        Repr3 { c0: raw.x, c1: raw.y, c2: raw.z }
    }

    proof fn lemma_alpha_in_unit(repr: Repr3) {
    }

    proof fn lemma_transform_inverse(repr: Repr3) {
    }

    fn name() -> &'static str {
        "Linear BGR"
    }

    fn src_transform_raw(repr: Repr3) -> (Vec3, i64) {
        (Vec3 { x: repr.c0, y: repr.c1, z: repr.c2 }, FIXED_ONE)
    }

    fn dst_transform_raw(raw: Vec3, alpha: i64) -> Repr3 {
        Repr3 { c0: raw.x, c1: raw.y, c2: raw.z }
    }
}

impl Saturate for LinearSrgb {
    open spec fn saturate_spec(repr: Repr3) -> Repr3 {
        Repr3 {
            c0: fixed_clamp_unit_spec(repr.c0),
            c1: fixed_clamp_unit_spec(repr.c1),
            c2: fixed_clamp_unit_spec(repr.c2),
        }
    }

    proof fn lemma_saturate_idempotent(repr: Repr3) {
    }

    fn saturate(repr: Repr3) -> Repr3 {
        Repr3 {
            c0: fixed_clamp_unit(repr.c0),
            c1: fixed_clamp_unit(repr.c1),
            c2: fixed_clamp_unit(repr.c2),
        }
    }
}

impl Saturate for LinearSrgbA {
    open spec fn saturate_spec(repr: Repr4) -> Repr4 {
        Repr4 {
            c0: fixed_clamp_unit_spec(repr.c0),
            c1: fixed_clamp_unit_spec(repr.c1),
            c2: fixed_clamp_unit_spec(repr.c2),
            c3: fixed_clamp_unit_spec(repr.c3),
        }
    }

    proof fn lemma_saturate_idempotent(repr: Repr4) {
    }

    fn saturate(repr: Repr4) -> Repr4 {
        Repr4 {
            c0: fixed_clamp_unit(repr.c0),
            c1: fixed_clamp_unit(repr.c1),
            c2: fixed_clamp_unit(repr.c2),
            c3: fixed_clamp_unit(repr.c3),
        }
    }
}

impl Blend for LinearSrgb {
    open spec fn blend_in_domain(from: Repr3, to: Repr3, factor: i64) -> bool {
        from.in_range() && to.in_range() && fixed_in_range(factor as int)
    }

    open spec fn blend_spec(from: Repr3, to: Repr3, factor: i64) -> Repr3 {
        Repr3 {
            c0: blend_comp_spec(from.c0 as int, to.c0 as int, factor as int) as i64,
            c1: blend_comp_spec(from.c1 as int, to.c1 as int, factor as int) as i64,
            c2: blend_comp_spec(from.c2 as int, to.c2 as int, factor as int) as i64,
        }
    }

    proof fn lemma_blend_zero(from: Repr3, to: Repr3) {
        lemma_blend_comp_zero(from.c0 as int, to.c0 as int);
        lemma_blend_comp_zero(from.c1 as int, to.c1 as int);
        lemma_blend_comp_zero(from.c2 as int, to.c2 as int);
    }

    proof fn lemma_blend_one(from: Repr3, to: Repr3) {
        lemma_blend_comp_one(from.c0 as int, to.c0 as int);
        lemma_blend_comp_one(from.c1 as int, to.c1 as int);
        lemma_blend_comp_one(from.c2 as int, to.c2 as int);
    }

    fn blend(from: Repr3, to: Repr3, factor: i64) -> Repr3 {
        Repr3 {
            c0: blend_comp(from.c0, to.c0, factor),
            c1: blend_comp(from.c1, to.c1, factor),
            c2: blend_comp(from.c2, to.c2, factor),
        }
    }
}

impl Blend for LinearSrgbA {
    open spec fn blend_in_domain(from: Repr4, to: Repr4, factor: i64) -> bool {
        from.in_range() && to.in_range() && fixed_in_range(factor as int)
    }

    open spec fn blend_spec(from: Repr4, to: Repr4, factor: i64) -> Repr4 {
        Repr4 {
            c0: blend_comp_spec(from.c0 as int, to.c0 as int, factor as int) as i64,
            c1: blend_comp_spec(from.c1 as int, to.c1 as int, factor as int) as i64,
            c2: blend_comp_spec(from.c2 as int, to.c2 as int, factor as int) as i64,
            c3: blend_comp_spec(from.c3 as int, to.c3 as int, factor as int) as i64,
        }
    }

    proof fn lemma_blend_zero(from: Repr4, to: Repr4) {
        lemma_blend_comp_zero(from.c0 as int, to.c0 as int);
        lemma_blend_comp_zero(from.c1 as int, to.c1 as int);
        lemma_blend_comp_zero(from.c2 as int, to.c2 as int);
        lemma_blend_comp_zero(from.c3 as int, to.c3 as int);
    }

    proof fn lemma_blend_one(from: Repr4, to: Repr4) {
        lemma_blend_comp_one(from.c0 as int, to.c0 as int);
        lemma_blend_comp_one(from.c1 as int, to.c1 as int);
        lemma_blend_comp_one(from.c2 as int, to.c2 as int);
        lemma_blend_comp_one(from.c3 as int, to.c3 as int);
    }

    fn blend(from: Repr4, to: Repr4, factor: i64) -> Repr4 {
        Repr4 {
            c0: blend_comp(from.c0, to.c0, factor),
            c1: blend_comp(from.c1, to.c1, factor),
            c2: blend_comp(from.c2, to.c2, factor),
            c3: blend_comp(from.c3, to.c3, factor),
        }
    }
}

/// The composited alpha of the "over" operator: the over alpha plus
/// the part of the under alpha the over color lets through.
pub open spec fn composite_alpha_spec(a_o: int, a_u: int) -> int {
    a_o + fixed_scale_spec(a_u, FIXED_ONE as int - a_o)
}

/// One composited color component of the "over" operator: both
/// components premultiplied by their alphas, blended, and
/// un-premultiplied by the composited alpha `out_a`.
pub open spec fn composite_comp_spec(c_o: int, a_o: int, c_u: int, a_u: int, out_a: int) -> int {
    (fixed_scale_spec(c_o, a_o) + fixed_scale_spec(
        fixed_scale_spec(c_u, a_u),
        FIXED_ONE as int - a_o,
    )) * FIXED_ONE as int / out_a
}

/// Compute one composited color component.
fn composite_comp(c_o: i64, a_o: i64, c_u: i64, a_u: i64, out_a: i64) -> (r: i64)
    requires
        fixed_in_range(c_o as int),
        fixed_in_range(c_u as int),
        0 <= a_o <= FIXED_ONE,
        0 <= a_u <= FIXED_ONE,
        0 < out_a <= 2 * FIXED_ONE,
    ensures
        r as int == composite_comp_spec(c_o as int, a_o as int, c_u as int, a_u as int, out_a as int),
{
    proof {
        lemma_fixed_scale_range(c_o as int, a_o as int);
        lemma_fixed_scale_range(c_u as int, a_u as int);
    }
    let p_o = fixed_scale(c_o, a_o);
    let scaled_u = fixed_scale(c_u, a_u);
    proof {
        lemma_fixed_scale_range(scaled_u as int, FIXED_ONE as int - a_o as int);
    }
    let p_u = fixed_scale(scaled_u, FIXED_ONE - a_o);
    let p = p_o + p_u;
    let num = p * FIXED_ONE;
    div_floor(num, out_a)
}

impl AlphaComposite for LinearSrgbA {
    open spec fn composite_spec(over: Repr4, under: Repr4) -> Repr4 {
        if over.c3 == 0 {
            under
        } else {
            let out_a = composite_alpha_spec(over.c3 as int, under.c3 as int);
            Repr4 {
                c0: composite_comp_spec(
                    over.c0 as int,
                    over.c3 as int,
                    under.c0 as int,
                    under.c3 as int,
                    out_a,
                ) as i64,
                c1: composite_comp_spec(
                    over.c1 as int,
                    over.c3 as int,
                    under.c1 as int,
                    under.c3 as int,
                    out_a,
                ) as i64,
                c2: composite_comp_spec(
                    over.c2 as int,
                    over.c3 as int,
                    under.c2 as int,
                    under.c3 as int,
                    out_a,
                ) as i64,
                c3: out_a as i64,
            }
        }
    }

    proof fn lemma_composite_opaque_over(over: Repr4, under: Repr4) {
        let one = FIXED_ONE as int;
        lemma_fixed_scale_zero(under.c3 as int);
        assert(composite_alpha_spec(over.c3 as int, under.c3 as int) == one);
        lemma_fixed_scale_one(over.c0 as int);
        lemma_fixed_scale_one(over.c1 as int);
        lemma_fixed_scale_one(over.c2 as int);
        lemma_fixed_scale_zero(fixed_scale_spec(under.c0 as int, under.c3 as int));
        lemma_fixed_scale_zero(fixed_scale_spec(under.c1 as int, under.c3 as int));
        lemma_fixed_scale_zero(fixed_scale_spec(under.c2 as int, under.c3 as int));
        lemma_fixed_scale_one(over.c0 as int + 0);
        lemma_fixed_scale_one(over.c1 as int + 0);
        lemma_fixed_scale_one(over.c2 as int + 0);
    }

    proof fn lemma_composite_transparent_over(over: Repr4, under: Repr4) {
    }

    fn composite(over: Repr4, under: Repr4) -> Repr4 {
        if over.c3 == 0 {
            under
        } else {
            proof {
                lemma_fixed_scale_unit(under.c3 as int, FIXED_ONE as int - over.c3 as int);
            }
            let out_a = over.c3 + fixed_scale(under.c3, FIXED_ONE - over.c3);
            Repr4 {
                c0: composite_comp(over.c0, over.c3, under.c0, under.c3, out_a),
                c1: composite_comp(over.c1, over.c3, under.c1, under.c3, out_a),
                c2: composite_comp(over.c2, over.c3, under.c2, under.c3, out_a),
                c3: out_a,
            }
        }
    }
}

impl ConvertFrom<LinearSrgb> for LinearSrgb {
    fn map_src(src: &mut Repr3) {
    }
}

impl ConvertFrom<LinearSrgb> for LinearSrgbA {
    fn map_src(src: &mut Repr3) {
    }
}

impl ConvertFrom<LinearSrgbA> for LinearSrgb {
    fn map_src(src: &mut Repr4) {
    }
}

impl ConvertFrom<LinearSrgb> for LinearBgr {
    fn map_src(src: &mut Repr3) {
    }
}

impl ConvertFrom<LinearBgr> for LinearSrgb {
    fn map_src(src: &mut Repr3) {
    }
}

} // verus!

