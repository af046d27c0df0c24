//! The central encoding abstraction: raw storage, its named-component
//! view, the linear space the encoding decodes into, and the two
//! transforms between raw storage and (linear vector, alpha).

use vstd::prelude::*;
use crate::fixed::FIXED_ONE;
use crate::space::LinearColorSpace;
use crate::vec3::Vec3;

verus! {

/// Implemented by the raw data representation of a color encoding: a
/// fixed-layout aggregate of scalar components.
pub trait ColorRepr: Sized + Clone + Copy {
    /// The type of a single element of this representation.
    type Element: Sized + Clone + Copy;
}

/// Marks `Self` as the named-component view of the representation
/// `Repr`: a bag of named fields carrying exactly the data of `Repr`.
///
/// Where the source of the data is a reinterpretation cast, the two
/// types must agree in layout for every value; here the same invariant
/// is an explicit bijection each view type proves once, at definition
/// time, so no value of the representation can lose information when
/// viewed through its components.
pub trait ComponentStructFor<Repr: ColorRepr>: Sized + Clone + Copy {
    /// Which view a representation presents.
    spec fn cast_spec(repr: Repr) -> Self;

    /// Which representation a view stands for.
    spec fn uncast_spec(s: Self) -> Repr;

    /// The view loses nothing: casting is a bijection on all values.
    proof fn lemma_cast_bijective(repr: Repr, s: Self)
        ensures
            Self::uncast_spec(Self::cast_spec(repr)) == repr,
            Self::cast_spec(Self::uncast_spec(s)) == s,
    ;

    /// Read the representation through its named components.
    fn cast(repr: &Repr) -> (s: Self)
        ensures
            s == Self::cast_spec(*repr),
    ;

    /// Write a named-component value back into the representation.
    fn cast_mut(repr: &mut Repr, s: Self)
        ensures
            *final(repr) == Self::uncast_spec(s),
    ;
}

/// A color encoding: a fixed, stateless way of storing a color,
/// together with the transforms into and out of its linear space.
pub trait ColorEncoding: Sized {
    /// The raw data representation used by this encoding.
    type Repr: ColorRepr;

    /// The 'bag of components' this color encoding uses.
    type ComponentStruct: ComponentStructFor<Self::Repr>;

    /// The [`LinearColorSpace`] used by this encoding.
    type LinearSpace: LinearColorSpace;

    /// The encoding's human-readable name, as a character sequence.
    spec fn name_spec() -> Seq<char>;

    /// The representations on which the two transforms are exact
    /// inverses of one another; decoding is still defined outside it.
    spec fn in_domain(repr: Self::Repr) -> bool;

    /// What [`Self::src_transform_raw`] returns.
    spec fn src_transform_spec(repr: Self::Repr) -> (Vec3, i64);

    /// What [`Self::dst_transform_raw`] returns.
    spec fn dst_transform_spec(raw: Vec3, alpha: i64) -> Self::Repr;

    /// The decoded alpha always lies in the unit interval.
    proof fn lemma_alpha_in_unit(repr: Self::Repr)
        ensures
            0 <= Self::src_transform_spec(repr).1 <= FIXED_ONE as int,
    ;

    /// Re-encoding what was decoded restores the representation, for
    /// representations inside the encoding's valid domain.
    proof fn lemma_transform_inverse(repr: Self::Repr)
        requires
            Self::in_domain(repr),
        ensures
            Self::dst_transform_spec(
                Self::src_transform_spec(repr).0,
                Self::src_transform_spec(repr).1,
            ) == repr,
    ;

    /// The encoding's human-readable name.
    fn name() -> (n: &'static str)
        ensures
            n@ == Self::name_spec(),
    ;

    /// Decode raw storage into a vector in `Self::LinearSpace` and a
    /// separate, not pre-multiplied alpha.  An encoding without alpha
    /// returns an alpha of one.
    fn src_transform_raw(repr: Self::Repr) -> (r: (Vec3, i64))
        ensures
            r == Self::src_transform_spec(repr),
    ;

    /// Encode a vector in `Self::LinearSpace` and a separate alpha back
    /// into raw storage.  An encoding without alpha disregards the
    /// alpha input.
    fn dst_transform_raw(raw: Vec3, alpha: i64) -> (repr: Self::Repr)
        ensures
            repr == Self::dst_transform_spec(raw, alpha),
    ;
}

/// Marks a color encoding in which it makes sense to perform
/// mathematical operations on the contained color values directly.
pub trait WorkingEncoding: ColorEncoding {

}

/// Marks a color encoding which is designed to be perceptually linear.
pub trait PerceptualEncoding: ColorEncoding + WorkingEncoding {

}

} // verus!
