//! Capability operations: saturation clamping, alpha compositing and
//! blending.  Each is an optional capability an encoding may declare;
//! declaring one obliges the encoding to prove the operation's
//! algebraic laws, so every implementor of these traits satisfies them.

use vstd::prelude::*;
use crate::convert::Color;
use crate::encoding::ColorEncoding;
use crate::encoding::WorkingEncoding;
use crate::fixed::FIXED_ONE;

verus! {

/// Implemented by color encodings that can perform saturate-style
/// clamping into their valid representable range; the policy (hard
/// clamp or soft roll-off) is the encoding's own.
pub trait Saturate: ColorEncoding {
    /// What [`Self::saturate`] returns.
    spec fn saturate_spec(repr: Self::Repr) -> Self::Repr;

    /// Saturating is idempotent: clamping an already clamped value
    /// changes nothing.
    proof fn lemma_saturate_idempotent(repr: Self::Repr)
        ensures
            Self::saturate_spec(Self::saturate_spec(repr)) == Self::saturate_spec(repr),
    ;

    /// Clamp a raw value into the encoding's representable range.
    fn saturate(repr: Self::Repr) -> (r: Self::Repr)
        ensures
            r == Self::saturate_spec(repr),
    ;
}

/// Implemented by color encodings that can do alpha compositing of raw
/// values, with the semantics of the non-premultiplied "over"
/// operator: the encoding premultiplies and un-premultiplies
/// internally.
pub trait AlphaComposite: ColorEncoding {
    /// What [`Self::composite`] returns.
    spec fn composite_spec(over: Self::Repr, under: Self::Repr) -> Self::Repr;

    /// A fully opaque "over" absorbs the "under" color entirely.
    proof fn lemma_composite_opaque_over(over: Self::Repr, under: Self::Repr)
        requires
            Self::in_domain(over),
            Self::in_domain(under),
            Self::src_transform_spec(over).1 == FIXED_ONE as int,
        ensures
            Self::composite_spec(over, under) == over,
    ;

    /// A fully transparent "over" leaves the "under" color unchanged.
    proof fn lemma_composite_transparent_over(over: Self::Repr, under: Self::Repr)
        requires
            Self::in_domain(over),
            Self::in_domain(under),
            Self::src_transform_spec(over).1 == 0,
        ensures
            Self::composite_spec(over, under) == under,
    ;

    /// Composite `over` onto `under`.
    fn composite(over: Self::Repr, under: Self::Repr) -> (r: Self::Repr)
        requires
            Self::in_domain(over),
            Self::in_domain(under),
        ensures
            r == Self::composite_spec(over, under),
    ;
}

/// Implemented by color encodings that can do alpha compositing of
/// whole [`Color`] values; every encoding able to composite raw values
/// composites colors the same way.
pub trait AlphaOver: ColorEncoding {
    /// What [`Self::composite`] returns.
    spec fn composite_spec(over: Color<Self>, under: Color<Self>) -> Color<Self>;

    /// A fully opaque "over" absorbs the "under" color entirely.
    proof fn lemma_composite_opaque_over(over: Color<Self>, under: Color<Self>)
        requires
            Self::in_domain(over.repr),
            Self::in_domain(under.repr),
            Self::src_transform_spec(over.repr).1 == FIXED_ONE as int,
        ensures
            Self::composite_spec(over, under) == over,
    ;

    /// A fully transparent "over" leaves the "under" color unchanged.
    proof fn lemma_composite_transparent_over(over: Color<Self>, under: Color<Self>)
        requires
            Self::in_domain(over.repr),
            Self::in_domain(under.repr),
            Self::src_transform_spec(over.repr).1 == 0,
        ensures
            Self::composite_spec(over, under) == under,
    ;

    /// Composite `over` onto `under`.
    fn composite(over: Color<Self>, under: Color<Self>) -> (r: Color<Self>)
        requires
            Self::in_domain(over.repr),
            Self::in_domain(under.repr),
        ensures
            r == Self::composite_spec(over, under),
    ;
}

impl<E: AlphaComposite> AlphaOver for E {
    open spec fn composite_spec(over: Color<E>, under: Color<E>) -> Color<E> {
        Color { repr: <E as AlphaComposite>::composite_spec(over.repr, under.repr) }
    }

    proof fn lemma_composite_opaque_over(over: Color<E>, under: Color<E>) {
        <E as AlphaComposite>::lemma_composite_opaque_over(over.repr, under.repr);
    }

    proof fn lemma_composite_transparent_over(over: Color<E>, under: Color<E>) {
        <E as AlphaComposite>::lemma_composite_transparent_over(over.repr, under.repr);
    }

    fn composite(over: Color<E>, under: Color<E>) -> Color<E> {
        Color { repr: <E as AlphaComposite>::composite(over.repr, under.repr) }
    }
}

/// Implemented by color encodings that can blend from one raw value to
/// another by a fixed-point blending factor: a per-component linear
/// interpolation inside the encoding, not necessarily a perceptually
/// linear one.  A factor outside the unit interval extrapolates.
pub trait Blend: ColorEncoding {
    /// Where blending's arithmetic stays inside the scalar's range.
    spec fn blend_in_domain(from: Self::Repr, to: Self::Repr, factor: i64) -> bool;

    /// What [`Self::blend`] returns: per component,
    /// `from + (to - from) * factor`.
    spec fn blend_spec(from: Self::Repr, to: Self::Repr, factor: i64) -> Self::Repr;

    /// Blending by a factor of zero returns `from` exactly.
    proof fn lemma_blend_zero(from: Self::Repr, to: Self::Repr)
        requires
            Self::blend_in_domain(from, to, 0),
        ensures
            Self::blend_spec(from, to, 0) == from,
    ;

    /// Blending by the unit factor returns `to` exactly.
    proof fn lemma_blend_one(from: Self::Repr, to: Self::Repr)
        requires
            Self::blend_in_domain(from, to, FIXED_ONE),
        ensures
            Self::blend_spec(from, to, FIXED_ONE) == to,
    ;

    /// Blend from `from` toward `to` by `factor`.
    fn blend(from: Self::Repr, to: Self::Repr, factor: i64) -> (r: Self::Repr)
        requires
            Self::blend_in_domain(from, to, factor),
        ensures
            r == Self::blend_spec(from, to, factor),
    ;
}

/// Implemented by color encodings which can linearly interpolate
/// between whole [`Color`] values; the interpolation is linear within
/// the encoding, not necessarily perceptually linear.
pub trait LinearInterpolate where Self: ColorEncoding + WorkingEncoding {
    /// Where interpolation's arithmetic stays inside the scalar's
    /// range.
    spec fn lerp_in_domain(from: Color<Self>, to: Color<Self>, factor: i64) -> bool;

    /// What [`Self::lerp`] returns.
    spec fn lerp_spec(from: Color<Self>, to: Color<Self>, factor: i64) -> Color<Self>;

    /// Interpolate from `from` toward `to` by `factor`.
    fn lerp(from: Color<Self>, to: Color<Self>, factor: i64) -> (r: Color<Self>)
        requires
            Self::lerp_in_domain(from, to, factor),
        ensures
            r == Self::lerp_spec(from, to, factor),
    ;
}

/// Every working encoding whose raw values support blending
/// interpolates colors by blending their representations.
impl<E: WorkingEncoding + Blend> LinearInterpolate for E {
    open spec fn lerp_in_domain(from: Color<E>, to: Color<E>, factor: i64) -> bool {
        <E as Blend>::blend_in_domain(from.repr, to.repr, factor)
    }

    open spec fn lerp_spec(from: Color<E>, to: Color<E>, factor: i64) -> Color<E> {
        Color { repr: <E as Blend>::blend_spec(from.repr, to.repr, factor) }
    }

    #[inline]
    fn lerp(from: Color<E>, to: Color<E>, factor: i64) -> Color<E> {
        Color { repr: <E as Blend>::blend(from.repr, to.repr, factor) }
    }
}

} // verus!
