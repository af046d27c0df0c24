//! A compile-time-checked color management core.
//!
//! Color values are tagged with their encoding; conversions between
//! encodings run through a fixed pipeline of hooks (gamut pre-mapping,
//! decode to a linear vector and alpha, linear color-space change,
//! re-encode), composed generically over arbitrary encodings.  Every
//! numeric quantity is an exact fixed-point scalar, so each step of the
//! pipeline carries a precise contract, and the algebraic laws of the
//! capability operations are proved of every implementor rather than
//! sampled.

use vstd::prelude::*;

pub mod capability;
pub mod convert;
pub mod encoding;
pub mod encodings;
pub mod fixed;
pub mod space;
pub mod vec3;

pub use capability::AlphaComposite;
pub use capability::AlphaOver;
pub use capability::Blend;
pub use capability::LinearInterpolate;
pub use capability::Saturate;
pub use convert::Color;
pub use convert::ColorInto;
pub use convert::ConvertFrom;
pub use encoding::ColorEncoding;
pub use encoding::ColorRepr;
pub use encoding::ComponentStructFor;
pub use encoding::PerceptualEncoding;
pub use encoding::WorkingEncoding;
pub use space::LinearColorSpace;
pub use space::LinearConvertFromRaw;
