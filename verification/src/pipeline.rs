//! The conversion pipeline.
//!
//! A conversion from one (space, alpha state) pair to another composes five
//! stages over the raw channels: decode the source encoding, normalize the
//! alpha state to `Separate` (gamut transforms are only valid on separate
//! color values), apply the linear gamut transform, re-target the alpha
//! state, and encode into the destination space. The alpha channel itself
//! passes through every stage unchanged.
//!
//! Two shortcuts are applied uniformly: when source and destination space
//! are equal the three space stages are skipped, and when source and
//! destination alpha state are equal the two alpha stages are skipped, so
//! that converting a color to the pair it is already in returns the raw
//! channels bit-for-bit. Separating a premultiplied color whose alpha is
//! zero leaves the color channels unchanged instead of dividing by zero.

use vstd::prelude::*;

use crate::raw::div_of;
use crate::raw::div3;
use crate::raw::dst_transform_of;
use crate::raw::apply_dst_transform;
use crate::raw::is_zero_bits;
use crate::raw::linear_part_of;
use crate::raw::apply_linear_part;
use crate::raw::mul_of;
use crate::raw::mul3;
use crate::raw::src_transform_of;
use crate::raw::apply_src_transform;
use crate::raw::zero_bits;
use crate::tags::DynamicAlphaState;
use crate::tags::DynamicColorSpace;

verus! {

/// The color channels with each one multiplied by alpha.
pub open spec fn premultiplied_spec(c: Seq<u32>, alpha: u32) -> Seq<u32> {
    seq![mul_of(c[0], alpha), mul_of(c[1], alpha), mul_of(c[2], alpha)]
}

/// The color channels with each one divided by alpha; when alpha is zero
/// the channels are left unchanged.
pub open spec fn separated_spec(c: Seq<u32>, alpha: u32) -> Seq<u32> {
    if is_zero_bits(alpha) {
        c
    } else {
        seq![div_of(c[0], alpha), div_of(c[1], alpha), div_of(c[2], alpha)]
    }
}

/// The alpha-state transform on raw color channels: multiply into
/// `Premultiplied`, divide out of it, and leave the channels unchanged
/// when the two states are equal.
pub open spec fn convert_alpha_spec(
    c: Seq<u32>,
    alpha: u32,
    src: DynamicAlphaState,
    dst: DynamicAlphaState,
) -> Seq<u32> {
    match (src, dst) {
        (DynamicAlphaState::Separate, DynamicAlphaState::Premultiplied) => premultiplied_spec(
            c,
            alpha,
        ),
        (DynamicAlphaState::Premultiplied, DynamicAlphaState::Separate) => separated_spec(
            c,
            alpha,
        ),
        _ => c,
    }
}

/// The five-stage conversion pipeline on raw color channels.
pub open spec fn convert_spec(
    c: Seq<u32>,
    alpha: u32,
    src: DynamicColorSpace,
    src_alpha: DynamicAlphaState,
    dst: DynamicColorSpace,
    dst_alpha: DynamicAlphaState,
) -> Seq<u32> {
    if src == dst {
        convert_alpha_spec(c, alpha, src_alpha, dst_alpha)
    } else {
        let lin = src_transform_of(c, src, dst);
        let sep = convert_alpha_spec(lin, alpha, src_alpha, DynamicAlphaState::Separate);
        let gam = linear_part_of(sep, src, dst);
        let ret = convert_alpha_spec(gam, alpha, DynamicAlphaState::Separate, dst_alpha);
        dst_transform_of(ret, src, dst)
    }
}

/// Converting a color to the space and alpha state it is already in
/// returns the raw color channels unchanged.
pub proof fn lemma_convert_identity(
    c: Seq<u32>,
    alpha: u32,
    space: DynamicColorSpace,
    state: DynamicAlphaState,
)
    ensures
        convert_spec(c, alpha, space, state, space, state) == c,
{
}

/// Premultiplying separate color channels multiplies each one by alpha,
/// exactly; the alpha channel itself is carried through unchanged by every
/// alpha-state transform.
pub proof fn lemma_premultiply_exact(c: Seq<u32>, alpha: u32)
    ensures
        convert_alpha_spec(
            c,
            alpha,
            DynamicAlphaState::Separate,
            DynamicAlphaState::Premultiplied,
        ) == seq![mul_of(c[0], alpha), mul_of(c[1], alpha), mul_of(c[2], alpha)],
{
}

/// Separating a premultiplied color whose alpha is zero leaves the color
/// channels unchanged.
pub proof fn lemma_separate_zero_alpha(c: Seq<u32>, alpha: u32)
    requires
        is_zero_bits(alpha),
    ensures
        convert_alpha_spec(
            c,
            alpha,
            DynamicAlphaState::Premultiplied,
            DynamicAlphaState::Separate,
        ) == c,
{
}

/// Runs the alpha-state transform on raw color channels.
pub fn convert_alpha_raw(
    c: [u32; 3],
    alpha: u32,
    src: DynamicAlphaState,
    dst: DynamicAlphaState,
) -> (r: [u32; 3])
    ensures
        r@ == convert_alpha_spec(c@, alpha, src, dst),
{
    match (src, dst) {
        (DynamicAlphaState::Separate, DynamicAlphaState::Premultiplied) => {
            let r = mul3(c, alpha);
            proof {
                assert(r@ =~= convert_alpha_spec(c@, alpha, src, dst));
            }
            r
        },
        (DynamicAlphaState::Premultiplied, DynamicAlphaState::Separate) => {
            if zero_bits(alpha) {
                c
            } else {
                let r = div3(c, alpha);
                proof {
                    assert(r@ =~= convert_alpha_spec(c@, alpha, src, dst));
                }
                r
            }
        },
        _ => c,
    }
}

/// Runs the five-stage conversion pipeline on raw color channels.
pub fn convert_raw(
    c: [u32; 3],
    alpha: u32,
    src: DynamicColorSpace,
    src_alpha: DynamicAlphaState,
    dst: DynamicColorSpace,
    dst_alpha: DynamicAlphaState,
) -> (r: [u32; 3])
    ensures
        r@ == convert_spec(c@, alpha, src, src_alpha, dst, dst_alpha),
{
    if src == dst {
        convert_alpha_raw(c, alpha, src_alpha, dst_alpha)
    } else {
        let lin = apply_src_transform(c, src, dst);
        let sep = convert_alpha_raw(lin, alpha, src_alpha, DynamicAlphaState::Separate);
        let gam = apply_linear_part(sep, src, dst);
        let ret = convert_alpha_raw(gam, alpha, DynamicAlphaState::Separate, dst_alpha);
        apply_dst_transform(ret, src, dst)
    }
}

} // verus!
