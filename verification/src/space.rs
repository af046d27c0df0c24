//! Linear color spaces and the conversions between them.
//!
//! A linear color space is identified purely by its primaries and white
//! point; a conversion between two such spaces is a linear map over
//! [`Vec3`] supplied by a table provider.  The provider must show that
//! the map has a well-defined inverse and that the conversion between a
//! space and itself is a true no-op.

use vstd::prelude::*;
use crate::vec3::Vec3;

verus! {

/// The chromaticity set a linear space uses for its red, green and blue
/// reference points.
#[derive(Clone, Copy, PartialEq, Eq, Structural, Debug)]
pub enum RgbPrimaries {
    /// The primaries shared by sRGB and BT.709.
    Bt709,
    /// The BT.709 primaries listed in reverse channel order.
    Bt709Reversed,
    /// The wide-gamut BT.2020 primaries.
    Bt2020,
    /// Primaries supplied by an external table.
    Custom,
}

/// The chromaticity a linear space treats as white.
#[derive(Clone, Copy, PartialEq, Eq, Structural, Debug)]
pub enum WhitePoint {
    D50,
    D60,
    D65,
    /// The equal-energy white point.
    E,
}

/// A color space reachable from CIE XYZ by a linear transformation
/// alone, identified by the pair (primaries, white point).
pub trait LinearColorSpace: Sized {
    /// The primaries identifying this space.
    spec fn primaries_spec() -> RgbPrimaries;

    /// The white point identifying this space.
    spec fn white_point_spec() -> WhitePoint;

    /// The primaries identifying this space.
    fn primaries() -> (p: RgbPrimaries)
        ensures
            p == Self::primaries_spec(),
    ;

    /// The white point identifying this space.
    fn white_point() -> (w: WhitePoint)
        ensures
            w == Self::white_point_spec(),
    ;
}

/// Two linear color spaces are the same space exactly when their
/// primaries and white points match.
pub open spec fn same_space<S1: LinearColorSpace, S2: LinearColorSpace>() -> bool {
    S1::primaries_spec() == S2::primaries_spec() && S1::white_point_spec()
        == S2::white_point_spec()
}

/// The conversion from the linear space `SrcSpace` into the linear
/// space `Self`: conceptually the matrix taking `SrcSpace` to CIE XYZ
/// composed with the matrix taking CIE XYZ to `Self`, applied in one
/// step.  The map must be exactly invertible, and must be the identity
/// whenever source and destination are the same space.
pub trait LinearConvertFromRaw<SrcSpace: LinearColorSpace>: LinearColorSpace {
    /// The vectors this conversion is defined on; at minimum it keeps
    /// the arithmetic inside the scalar's range.
    spec fn vec_in_domain(v: Vec3) -> bool;

    /// The linear map this conversion applies.
    spec fn convert_spec(v: Vec3) -> Vec3;

    /// The inverse of the linear map, which exists because the map is a
    /// change of basis.
    spec fn inverse_spec(v: Vec3) -> Vec3;

    /// The declared inverse really inverts the conversion.
    proof fn lemma_convert_invertible(v: Vec3)
        requires
            Self::vec_in_domain(v),
        ensures
            Self::inverse_spec(Self::convert_spec(v)) == v,
    ;

    /// Converting a space to itself changes nothing.
    proof fn lemma_same_space_identity(v: Vec3)
        requires
            Self::vec_in_domain(v),
            same_space::<Self, SrcSpace>(),
        ensures
            Self::convert_spec(v) == v,
    ;

    /// Apply the conversion in place.
    fn linear_part_raw(raw: &mut Vec3)
        requires
            Self::vec_in_domain(*old(raw)),
        ensures
            *final(raw) == Self::convert_spec(*old(raw)),
    ;
}

/// Converting a vector from `S1` to `S2` and back returns the original
/// vector, provided the backward conversion is the inverse linear map
/// of the forward one, as a coherent conversion table defines it.
pub proof fn lemma_linear_round_trip<S1, S2>(v: Vec3) where
    S1: LinearConvertFromRaw<S2>,
    S2: LinearConvertFromRaw<S1>,

    requires
        <S2 as LinearConvertFromRaw<S1>>::vec_in_domain(v),
        <S1 as LinearConvertFromRaw<S2>>::convert_spec(
            <S2 as LinearConvertFromRaw<S1>>::convert_spec(v),
        ) == <S2 as LinearConvertFromRaw<S1>>::inverse_spec(
            <S2 as LinearConvertFromRaw<S1>>::convert_spec(v),
        ),
    ensures
        <S1 as LinearConvertFromRaw<S2>>::convert_spec(
            <S2 as LinearConvertFromRaw<S1>>::convert_spec(v),
        ) == v,
{
    <S2 as LinearConvertFromRaw<S1>>::lemma_convert_invertible(v);
}

} // verus!
