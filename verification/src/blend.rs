//! The blending engine.
//!
//! A blend strategy is a stateless per-channel operation: given two channel
//! values, a blend factor and a parameter bundle, it produces one blended
//! channel. The strategy is applied independently to each color channel by
//! [`crate::color_alpha::ColorAlpha::blend_with`] and its variants.

use vstd::prelude::*;

use crate::raw::ONE_BITS;
use crate::raw::lerp_of;
use crate::raw::lerp1;

verus! {

/// A pluggable per-channel blend strategy.
pub trait ColorBlender: Sized {
    /// The strategy's parameter bundle.
    type Params: Copy;

    /// The parameters used by the fixed-parameter blend entry points.
    spec fn default_params_spec() -> Self::Params;

    /// Returns the parameters used by the fixed-parameter blend entry
    /// points.
    fn default_params() -> (p: Self::Params)
        ensures
            p == Self::default_params_spec(),
    ;

    /// What the strategy returns for one channel.
    spec fn blend_spec(a: u32, b: u32, factor: u32, params: Self::Params) -> u32;

    /// Blends one channel of `a` toward `b` by `factor`.
    fn blend_with(a: u32, b: u32, factor: u32, params: Self::Params) -> (r: u32)
        ensures
            r == Self::blend_spec(a, b, factor, params),
    ;
}

/// The empty parameter bundle of the linear blend strategy.
#[derive(Clone, Copy)]
pub struct NoParams;

/// The linear-interpolation blend strategy. A factor whose bit pattern is
/// exactly positive zero returns the first operand's channel unchanged,
/// and a factor of exactly one returns the second's.
#[derive(Clone, Copy)]
pub struct LinearBlender;

impl ColorBlender for LinearBlender {
    type Params = NoParams;

    open spec fn default_params_spec() -> NoParams {
        NoParams
    }

    fn default_params() -> (p: NoParams) {
        NoParams
    }

    open spec fn blend_spec(a: u32, b: u32, factor: u32, params: NoParams) -> u32 {
        if factor == 0u32 {
            a
        } else if factor == ONE_BITS {
            b
        } else {
            lerp_of(a, b, factor)
        }
    }

    fn blend_with(a: u32, b: u32, factor: u32, params: NoParams) -> (r: u32) {
        if factor == 0u32 {
            a
        } else if factor == ONE_BITS {
            b
        } else {
            lerp1(a, b, factor)
        }
    }
}

/// At the blend boundaries the linear strategy is exact: a factor of zero
/// returns the first operand's channel bit-for-bit, and a factor of one
/// the second's.
pub proof fn lemma_blend_boundaries(a: u32, b: u32)
    ensures
        LinearBlender::blend_spec(a, b, 0u32, NoParams) == a,
        LinearBlender::blend_spec(a, b, ONE_BITS, NoParams) == b,
{
}

} // verus!
