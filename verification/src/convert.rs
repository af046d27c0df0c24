//! The conversion protocol: a [`Color`] tagged with encoding `SrcEnc`
//! becomes a [`Color`] tagged with `DstEnc` by running the pre-map
//! hook, decoding through the source encoding, changing linear space,
//! and re-encoding through the destination encoding.  The conversion
//! exists only when `DstEnc` declares itself convertible from `SrcEnc`
//! and a linear-space conversion is defined for the pair of spaces.
//!
//! Converting to another encoding and back is deliberately not
//! guaranteed to restore the value: the two gamuts may differ and a
//! pre-map hook may compress colors to fit.  Only the conversion from
//! an encoding to itself is an identity, as
//! [`lemma_convert_identity`] states.

use vstd::prelude::*;
use crate::encoding::ColorEncoding;
use crate::space::LinearConvertFromRaw;

verus! {

/// A raw color representation tagged, at the type level, with the
/// encoding its numbers are to be read in.
#[verifier::reject_recursive_types(E)]
pub struct Color<E: ColorEncoding> {
    /// The raw color data.
    pub repr: E::Repr,
}

/// Marks `Self` as a color encoding able to be directly converted from
/// `SrcEnc`, with a hook to perform extra mapping during the
/// conversion if necessary.
pub trait ConvertFrom<SrcEnc: ColorEncoding>: ColorEncoding where
    Self::LinearSpace: LinearConvertFromRaw<SrcEnc::LinearSpace>,
 {
    /// What [`Self::map_src`] leaves in its argument; the identity
    /// unless the conversion performs gamut mapping.
    open spec fn map_src_spec(repr: SrcEnc::Repr) -> SrcEnc::Repr {
        repr
    }

    /// If required, map the input before it undergoes its source
    /// transform; desirable as gamut mapping when the source encoding
    /// represents more colors than the destination.  The default hook
    /// changes nothing.
    fn map_src(src: &mut SrcEnc::Repr)
        ensures
            *final(src) == Self::map_src_spec(*old(src)),
    ;
}

/// The representation the conversion pipeline produces: pre-map, then
/// decode, then the linear-space change, then re-encode, with alpha
/// carried through unchanged.
pub open spec fn convert_spec<SrcEnc: ColorEncoding, DstEnc: ConvertFrom<SrcEnc>>(
    repr: SrcEnc::Repr,
) -> DstEnc::Repr where DstEnc::LinearSpace: LinearConvertFromRaw<SrcEnc::LinearSpace> {
    let mapped = DstEnc::map_src_spec(repr);
    let decoded = SrcEnc::src_transform_spec(mapped);
    let moved = <DstEnc::LinearSpace as LinearConvertFromRaw<SrcEnc::LinearSpace>>::convert_spec(
        decoded.0,
    );
    DstEnc::dst_transform_spec(moved, decoded.1)
}

/// Whether the decoded vector lies where the linear-space conversion
/// of the pipeline is defined.
pub open spec fn convert_in_domain<SrcEnc: ColorEncoding, DstEnc: ConvertFrom<SrcEnc>>(
    repr: SrcEnc::Repr,
) -> bool where DstEnc::LinearSpace: LinearConvertFromRaw<SrcEnc::LinearSpace> {
    <DstEnc::LinearSpace as LinearConvertFromRaw<SrcEnc::LinearSpace>>::vec_in_domain(
        SrcEnc::src_transform_spec(DstEnc::map_src_spec(repr)).0,
    )
}

impl<E: ColorEncoding> Clone for Color<E> {
    fn clone(&self) -> (c: Self)
        ensures
            c == *self,
    {
        Color { repr: self.repr }
    }
}

impl<E: ColorEncoding> Copy for Color<E> {

}

impl<SrcEnc: ColorEncoding> Color<SrcEnc> {
    /// Tag a raw representation with this encoding.
    pub fn new(repr: SrcEnc::Repr) -> (c: Color<SrcEnc>)
        ensures
            c.repr == repr,
    {
        Color { repr }
    }

    /// Convert this color into the destination encoding through the
    /// full pipeline.
    pub fn convert<DstEnc: ConvertFrom<SrcEnc>>(self) -> (c: Color<DstEnc>) where
        DstEnc::LinearSpace: LinearConvertFromRaw<SrcEnc::LinearSpace>,

        requires
            convert_in_domain::<SrcEnc, DstEnc>(self.repr),
        ensures
            c.repr == convert_spec::<SrcEnc, DstEnc>(self.repr),
    {
        let mut repr = self.repr;
        DstEnc::map_src(&mut repr);
        let decoded = SrcEnc::src_transform_raw(repr);
        let mut v = decoded.0;
        <DstEnc::LinearSpace as LinearConvertFromRaw<SrcEnc::LinearSpace>>::linear_part_raw(
            &mut v,
        );
        Color { repr: DstEnc::dst_transform_raw(v, decoded.1) }
    }
}

/// The ergonomic face of the conversion protocol: `self` converted
/// into the destination color type.
pub trait ColorInto<DstCol>: Sized {
    /// When the conversion may run.
    spec fn color_into_requires(self) -> bool;

    /// The color the conversion produces.
    spec fn color_into_spec(self) -> DstCol;

    /// Convert `self` into the destination color type.
    fn color_into(self) -> (dst: DstCol)
        requires
            self.color_into_requires(),
        ensures
            dst == self.color_into_spec(),
    ;
}

impl<SrcEnc, DstEnc> ColorInto<Color<DstEnc>> for Color<SrcEnc> where
    SrcEnc: ColorEncoding,
    DstEnc: ConvertFrom<SrcEnc>,
    DstEnc::LinearSpace: LinearConvertFromRaw<SrcEnc::LinearSpace>,
 {
    open spec fn color_into_requires(self) -> bool {
        convert_in_domain::<SrcEnc, DstEnc>(self.repr)
    }

    open spec fn color_into_spec(self) -> Color<DstEnc> {
        Color { repr: convert_spec::<SrcEnc, DstEnc>(self.repr) }
    }

    fn color_into(self) -> Color<DstEnc> {
        self.convert()
    }
}

/// Converting a color from an encoding to that same encoding returns
/// the original value exactly, for values inside the encoding's valid
/// domain and under the default identity pre-map hook: the pipeline's
/// only possible change, the linear-space conversion, is a no-op
/// between a space and itself.
pub proof fn lemma_convert_identity<E>(repr: E::Repr) where
    E: ConvertFrom<E>,
    E::LinearSpace: LinearConvertFromRaw<E::LinearSpace>,

    requires
        E::in_domain(repr),
        E::map_src_spec(repr) == repr,
        convert_in_domain::<E, E>(repr),
    ensures
        convert_spec::<E, E>(repr) == repr,
{
    let decoded = E::src_transform_spec(repr);
    <E::LinearSpace as LinearConvertFromRaw<E::LinearSpace>>::lemma_same_space_identity(
        decoded.0,
    );
    E::lemma_transform_inverse(repr);
}

} // verus!
