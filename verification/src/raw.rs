//! Raw channel arithmetic.
//!
//! A channel is an IEEE-754 single-precision number, carried as its bit
//! pattern in a `u32`. The arithmetic on channels is delegated to `glam`
//! and `kolor`; each operation's result is given a name by an
//! uninterpreted spec function, and a trusted wrapper states that the call
//! returns exactly that named value. All logic above this module is
//! verified against those names.

use vstd::prelude::*;

use crate::tags::DynamicColorSpace;

verus! {

/// The bit pattern of `1.0f32`.
pub const ONE_BITS: u32 = 0x3F80_0000;

/// Whether a bit pattern denotes floating-point zero (positive or negative).
pub open spec fn is_zero_bits(x: u32) -> bool {
    x == 0x0000_0000 || x == 0x8000_0000
}

/// Returns whether `x` is the bit pattern of a floating-point zero.
pub fn zero_bits(x: u32) -> (r: bool)
    ensures
        r == is_zero_bits(x),
{
    x == 0x0000_0000 || x == 0x8000_0000
}

/// The IEEE-754 product of two channels.
pub uninterp spec fn mul_of(x: u32, y: u32) -> u32;

/// The IEEE-754 quotient of two channels.
pub uninterp spec fn div_of(x: u32, y: u32) -> u32;

/// A channel clamped into [0, 1].
pub uninterp spec fn clamp01_of(x: u32) -> u32;

/// The linear interpolation from channel `x` to channel `y` by factor `t`.
pub uninterp spec fn lerp_of(x: u32, y: u32, t: u32) -> u32;

/// The numerically greatest of four channels.
pub uninterp spec fn max4_of(c: Seq<u32>) -> u32;

/// The numerically least of four channels.
pub uninterp spec fn min4_of(c: Seq<u32>) -> u32;

/// The channel denoting `x / 255`, for a byte `x`.
pub uninterp spec fn unit_from_u8(x: u8) -> u32;

/// The byte nearest to `x * 255`, saturated into the `u8` range.
pub uninterp spec fn u8_from_unit(x: u32) -> u8;

/// What `kolor`'s source transform returns: the channels decoded from the
/// source space's encoding into the conversion's linear form.
pub uninterp spec fn src_transform_of(
    c: Seq<u32>,
    src: DynamicColorSpace,
    dst: DynamicColorSpace,
) -> Seq<u32>;

/// What `kolor`'s linear part returns: the gamut (primaries / white point)
/// transform between the two spaces' linear forms.
pub uninterp spec fn linear_part_of(
    c: Seq<u32>,
    src: DynamicColorSpace,
    dst: DynamicColorSpace,
) -> Seq<u32>;

/// What `kolor`'s destination transform returns: the channels encoded into
/// the destination space's final form.
pub uninterp spec fn dst_transform_of(
    c: Seq<u32>,
    src: DynamicColorSpace,
    dst: DynamicColorSpace,
) -> Seq<u32>;

/// Relies on glam's component-wise `Mul` for `Vec3`: each result channel is
/// the IEEE-754 product of the corresponding operand channels.
#[verifier::external_body]
pub(crate) fn mul3(c: [u32; 3], s: u32) -> (r: [u32; 3])
    ensures
        r@ == seq![mul_of(c@[0], s), mul_of(c@[1], s), mul_of(c@[2], s)],
{
    let a: glam::Vec3 = bytemuck::cast(c);
    let b: glam::Vec3 = bytemuck::cast([s, s, s]);
    bytemuck::cast(a * b)
}

/// Relies on glam's component-wise `Div` for `Vec3`: each result channel is
/// the IEEE-754 quotient of the corresponding operand channels.
#[verifier::external_body]
pub(crate) fn div3(c: [u32; 3], s: u32) -> (r: [u32; 3])
    ensures
        r@ == seq![div_of(c@[0], s), div_of(c@[1], s), div_of(c@[2], s)],
{
    let a: glam::Vec3 = bytemuck::cast(c);
    let b: glam::Vec3 = bytemuck::cast([s, s, s]);
    bytemuck::cast(a / b)
}

/// Relies on `glam::Vec4::clamp` with bounds 0 and 1: each result channel
/// is the corresponding input channel clamped into [0, 1].
#[verifier::external_body]
pub(crate) fn clamp01_4(c: [u32; 4]) -> (r: [u32; 4])
    ensures
        r@ == seq![clamp01_of(c@[0]), clamp01_of(c@[1]), clamp01_of(c@[2]), clamp01_of(c@[3])],
{
    let v: glam::Vec4 = bytemuck::cast(c);
    bytemuck::cast(v.clamp(glam::Vec4::ZERO, glam::Vec4::ONE))
}

/// Relies on `glam::Vec3::lerp`: the result is the interpolation from
/// channel `a` to channel `b` by factor `t`.
#[verifier::external_body]
pub(crate) fn lerp1(a: u32, b: u32, t: u32) -> (r: u32)
    ensures
        r == lerp_of(a, b, t),
{
    let av: glam::Vec3 = bytemuck::cast([a, a, a]);
    let bv: glam::Vec3 = bytemuck::cast([b, b, b]);
    let tv: glam::Vec3 = bytemuck::cast([t, t, t]);
    av.lerp(bv, tv.x).x.to_bits()
}

/// Relies on `glam::Vec4::max_element`: the result is the numerically
/// greatest channel, and is always one of the four channels.
#[verifier::external_body]
pub(crate) fn max_element4(c: [u32; 4]) -> (r: u32)
    ensures
        r == max4_of(c@),
        r == c@[0] || r == c@[1] || r == c@[2] || r == c@[3],
{
    let v: glam::Vec4 = bytemuck::cast(c);
    v.max_element().to_bits()
}

/// Relies on `glam::Vec4::min_element`: the result is the numerically
/// least channel, and is always one of the four channels.
#[verifier::external_body]
pub(crate) fn min_element4(c: [u32; 4]) -> (r: u32)
    ensures
        r == min4_of(c@),
        r == c@[0] || r == c@[1] || r == c@[2] || r == c@[3],
{
    let v: glam::Vec4 = bytemuck::cast(c);
    v.min_element().to_bits()
}

/// Relies on glam's component-wise multiply and `Vec4::round`: each byte is
/// its channel scaled by 255, rounded to the nearest integer, and saturated
/// into the `u8` range.
#[verifier::external_body]
pub(crate) fn encode_u8(c: [u32; 4]) -> (r: [u8; 4])
    ensures
        r@ == seq![u8_from_unit(c@[0]), u8_from_unit(c@[1]), u8_from_unit(c@[2]), u8_from_unit(
            c@[3],
        )],
{
    let v: glam::Vec4 = bytemuck::cast(c);
    let w = (v * glam::Vec4::splat(255u8.into())).round();
    [w.x as u8, w.y as u8, w.z as u8, w.w as u8]
}

/// Relies on glam's component-wise `Div` for `Vec4`: each channel is its
/// byte divided by 255.
#[verifier::external_body]
pub(crate) fn decode_u8(e: [u8; 4]) -> (r: [u32; 4])
    ensures
        r@ == seq![unit_from_u8(e@[0]), unit_from_u8(e@[1]), unit_from_u8(e@[2]), unit_from_u8(
            e@[3],
        )],
{
    let v = glam::Vec4::new(e[0].into(), e[1].into(), e[2].into(), e[3].into());
    bytemuck::cast(v / glam::Vec4::splat(255u8.into()))
}

/// Relies on `kolor::ColorConversion::apply_src_transform`: decodes the
/// source space's nonlinear encoding into the conversion's linear form; the
/// result depends only on the channels and the space pair.
#[verifier::external_body]
pub(crate) fn apply_src_transform(
    c: [u32; 3],
    src: DynamicColorSpace,
    dst: DynamicColorSpace,
) -> (r: [u32; 3])
    ensures
        r@ == src_transform_of(c@, src, dst),
{
    let to_kolor = |s: DynamicColorSpace| match s {
        DynamicColorSpace::EncodedSrgb => kolor::spaces::ENCODED_SRGB,
        DynamicColorSpace::LinearSrgb => kolor::spaces::LINEAR_SRGB,
    };
    let conv = kolor::ColorConversion::new(to_kolor(src), to_kolor(dst));
    let v: glam::Vec3 = bytemuck::cast(c);
    bytemuck::cast(conv.apply_src_transform(v))
}

/// Relies on `kolor::ColorConversion::apply_linear_part`: applies the gamut
/// (primaries / white point) transform between the two spaces' linear
/// forms; the result depends only on the channels and the space pair.
#[verifier::external_body]
pub(crate) fn apply_linear_part(
    c: [u32; 3],
    src: DynamicColorSpace,
    dst: DynamicColorSpace,
) -> (r: [u32; 3])
    ensures
        r@ == linear_part_of(c@, src, dst),
{
    let to_kolor = |s: DynamicColorSpace| match s {
        DynamicColorSpace::EncodedSrgb => kolor::spaces::ENCODED_SRGB,
        DynamicColorSpace::LinearSrgb => kolor::spaces::LINEAR_SRGB,
    };
    let conv = kolor::ColorConversion::new(to_kolor(src), to_kolor(dst));
    let v: glam::Vec3 = bytemuck::cast(c);
    bytemuck::cast(conv.apply_linear_part(v))
}

/// Relies on `kolor::ColorConversion::apply_dst_transform`: encodes the
/// channels into the destination space's final form; the result depends
/// only on the channels and the space pair.
#[verifier::external_body]
pub(crate) fn apply_dst_transform(
    c: [u32; 3],
    src: DynamicColorSpace,
    dst: DynamicColorSpace,
) -> (r: [u32; 3])
    ensures
        r@ == dst_transform_of(c@, src, dst),
{
    let to_kolor = |s: DynamicColorSpace| match s {
        DynamicColorSpace::EncodedSrgb => kolor::spaces::ENCODED_SRGB,
        DynamicColorSpace::LinearSrgb => kolor::spaces::LINEAR_SRGB,
    };
    let conv = kolor::ColorConversion::new(to_kolor(src), to_kolor(dst));
    let v: glam::Vec3 = bytemuck::cast(c);
    bytemuck::cast(conv.apply_dst_transform(v))
}

} // verus!
