//! The strongly typed color with an alpha channel.

use core::marker::PhantomData;
use vstd::prelude::*;

use crate::blend::ColorBlender;
use crate::color::Color;
use crate::color::Display;
use crate::pipeline::convert_alpha_raw;
use crate::pipeline::convert_alpha_spec;
use crate::pipeline::convert_raw;
use crate::pipeline::convert_spec;
use crate::raw::clamp01_of;
use crate::raw::clamp01_4;
use crate::raw::decode_u8;
use crate::raw::encode_u8;
use crate::raw::max4_of;
use crate::raw::max_element4;
use crate::raw::min4_of;
use crate::raw::min_element4;
use crate::raw::src_transform_of;
use crate::raw::apply_src_transform;
use crate::raw::u8_from_unit;
use crate::raw::unit_from_u8;
use crate::tags::AlphaState;
use crate::tags::AsU8Array;
use crate::tags::ColorSpace;
use crate::tags::DynamicAlphaState;
use crate::tags::EncodedColorSpace;
use crate::tags::EncodedSrgb;
use crate::tags::LinearColorSpace;
use crate::tags::LinearSrgb;
use crate::tags::NonlinearColorSpace;
use crate::tags::Premultiplied;
use crate::tags::Separate;
use crate::tags::WorkingColorSpace;
use crate::tags::linear_space;
use crate::tags::linear_space_of;

verus! {

/// A strongly typed color with an alpha channel, parameterized by a color
/// space and an alpha state.
///
/// The raw numbers are only meaningful under exactly that (space, alpha
/// state) pair; every operation that crosses pairs goes through an explicit
/// conversion. The alpha channel is always linear in [0, 1]. Channels are
/// IEEE-754 single-precision bit patterns.
#[derive(Copy)]
pub struct ColorAlpha<Spc, A> {
    /// The raw channel values. Be careful when modifying this directly.
    pub raw: [u32; 4],
    pub _pd: PhantomData<(Spc, A)>,
}

impl<Spc, A> Clone for ColorAlpha<Spc, A> {
    fn clone(&self) -> (r: Self)
        ensures
            r.raw == self.raw,
    {
        ColorAlpha { raw: self.raw, _pd: PhantomData }
    }
}

impl<Spc, A> PartialEq for ColorAlpha<Spc, A> {
    fn eq(&self, other: &ColorAlpha<Spc, A>) -> (r: bool) {
        let r = self.raw[0] == other.raw[0] && self.raw[1] == other.raw[1] && self.raw[2]
            == other.raw[2] && self.raw[3] == other.raw[3];
        proof {
            if r {
                assert(self.raw@ =~= other.raw@);
            }
        }
        r
    }
}

impl<Spc, A> vstd::std_specs::cmp::PartialEqSpecImpl for ColorAlpha<Spc, A> {
    open spec fn obeys_eq_spec() -> bool {
        true
    }

    open spec fn eq_spec(&self, other: &ColorAlpha<Spc, A>) -> bool {
        self.raw@ == other.raw@
    }
}

impl<Spc, A> ColorAlpha<Spc, A> {
    /// The three color channels of the raw value.
    pub open spec fn color_spec(self) -> Seq<u32> {
        seq![self.raw@[0], self.raw@[1], self.raw@[2]]
    }

    /// The alpha channel of the raw value.
    pub open spec fn alpha_spec(self) -> u32 {
        self.raw@[3]
    }

    /// Creates a `ColorAlpha` with the raw internal color elements `el1`,
    /// `el2`, `el3` and alpha value `alpha`. No validation is performed.
    pub fn new(el1: u32, el2: u32, el3: u32, alpha: u32) -> (c: Self)
        ensures
            c.raw@ == seq![el1, el2, el3, alpha],
    {
        let c = ColorAlpha { raw: [el1, el2, el3, alpha], _pd: PhantomData };
        proof {
            assert(c.raw@ =~= seq![el1, el2, el3, alpha]);
        }
        c
    }

    /// Creates a `ColorAlpha` with the raw values contained in `raw`.
    pub fn from_raw(raw: [u32; 4]) -> (c: Self)
        ensures
            c.raw == raw,
    {
        ColorAlpha { raw, _pd: PhantomData }
    }

    /// Clamps the raw element values of `self` into the range [0, 1].
    pub fn saturate(self) -> (c: Self)
        ensures
            c.raw@ == seq![
                clamp01_of(self.raw@[0]),
                clamp01_of(self.raw@[1]),
                clamp01_of(self.raw@[2]),
                clamp01_of(self.raw@[3]),
            ],
    {
        ColorAlpha { raw: clamp01_4(self.raw), _pd: PhantomData }
    }

    /// Returns the maximum element of `self`.
    pub fn max_element(self) -> (r: u32)
        ensures
            r == max4_of(self.raw@),
            r == self.raw@[0] || r == self.raw@[1] || r == self.raw@[2] || r == self.raw@[3],
    {
        max_element4(self.raw)
    }

    /// Returns the minimum element of `self`.
    pub fn min_element(self) -> (r: u32)
        ensures
            r == min4_of(self.raw@),
            r == self.raw@[0] || r == self.raw@[1] || r == self.raw@[2] || r == self.raw@[3],
    {
        min_element4(self.raw)
    }
}

/// Creates a `ColorAlpha` in the `EncodedSrgb` color space with components
/// `r`, `g`, `b`, and `a`.
pub fn srgba<A: AlphaState>(r: u32, g: u32, b: u32, a: u32) -> (c: ColorAlpha<EncodedSrgb, A>)
    ensures
        c.raw@ == seq![r, g, b, a],
{
    ColorAlpha::new(r, g, b, a)
}

/// Creates a `ColorAlpha` in the `EncodedSrgb` color space with byte
/// components `r`, `g`, `b`, and `a`.
pub fn srgba_u8<A: AlphaState>(r: u8, g: u8, b: u8, a: u8) -> (c: ColorAlpha<EncodedSrgb, A>)
    ensures
        c.raw@ == seq![unit_from_u8(r), unit_from_u8(g), unit_from_u8(b), unit_from_u8(a)],
{
    ColorAlpha::from_u8([r, g, b, a])
}

/// Creates a `ColorAlpha` in the `LinearSrgb` color space with components
/// `r`, `g`, `b`, and `a`.
pub fn linear_srgba<A: AlphaState>(r: u32, g: u32, b: u32, a: u32) -> (c: ColorAlpha<
    LinearSrgb,
    A,
>)
    ensures
        c.raw@ == seq![r, g, b, a],
{
    ColorAlpha::new(r, g, b, a)
}

/// A conversion query: one type standing for the destination pair of a
/// conversion. A color space queries a space change that keeps the source
/// alpha state, an alpha state queries an alpha change that keeps the
/// source space, and a `ColorAlpha` queries that color's space and state.
pub trait ColorAlphaConversionQuery<SrcSpace: ColorSpace, SrcAlpha: AlphaState> {
    /// The destination color space of the queried conversion.
    type DstSpace: ColorSpace;

    /// The destination alpha state of the queried conversion.
    type DstAlpha: AlphaState;
}

impl<SrcSpace: ColorSpace, SrcAlpha: AlphaState> ColorAlphaConversionQuery<
    SrcSpace,
    SrcAlpha,
> for EncodedSrgb {
    type DstSpace = EncodedSrgb;

    type DstAlpha = SrcAlpha;
}

impl<SrcSpace: ColorSpace, SrcAlpha: AlphaState> ColorAlphaConversionQuery<
    SrcSpace,
    SrcAlpha,
> for LinearSrgb {
    type DstSpace = LinearSrgb;

    type DstAlpha = SrcAlpha;
}

impl<SrcSpace: ColorSpace, SrcAlpha: AlphaState> ColorAlphaConversionQuery<
    SrcSpace,
    SrcAlpha,
> for Separate {
    type DstSpace = SrcSpace;

    type DstAlpha = Separate;
}

impl<SrcSpace: ColorSpace, SrcAlpha: AlphaState> ColorAlphaConversionQuery<
    SrcSpace,
    SrcAlpha,
> for Premultiplied {
    type DstSpace = SrcSpace;

    type DstAlpha = Premultiplied;
}

impl<
    SrcSpace: ColorSpace,
    SrcAlpha: AlphaState,
    DstSpace: ColorSpace,
    DstAlpha: AlphaState,
> ColorAlphaConversionQuery<SrcSpace, SrcAlpha> for ColorAlpha<DstSpace, DstAlpha> {
    type DstSpace = DstSpace;

    type DstAlpha = DstAlpha;
}

impl<SrcSpace: ColorSpace, SrcAlpha: AlphaState> ColorAlpha<SrcSpace, SrcAlpha> {
    /// Converts from one color space and alpha state to another, with the
    /// destination given by a single query type; works the same as
    /// [`ColorAlpha::convert`].
    pub fn convert_to<Query: ColorAlphaConversionQuery<SrcSpace, SrcAlpha>>(self) -> (c: ColorAlpha<
        Query::DstSpace,
        Query::DstAlpha,
    >)
        ensures
            c.color_spec() == convert_spec(
                self.color_spec(),
                self.alpha_spec(),
                SrcSpace::space_spec(),
                SrcAlpha::state_spec(),
                Query::DstSpace::space_spec(),
                Query::DstAlpha::state_spec(),
            ),
            c.alpha_spec() == self.alpha_spec(),
    {
        self.convert::<Query::DstSpace, Query::DstAlpha>()
    }

    /// Converts from one color space and alpha state to another, running
    /// the five-stage pipeline of [`crate::pipeline::convert_spec`]. The
    /// alpha channel passes through unchanged.
    ///
    /// Converting a premultiplied color with a zero alpha out of its
    /// premultiplied state leaves the color channels unchanged.
    pub fn convert<DstSpace: ColorSpace, DstAlpha: AlphaState>(self) -> (c: ColorAlpha<
        DstSpace,
        DstAlpha,
    >)
        ensures
            c.color_spec() == convert_spec(
                self.color_spec(),
                self.alpha_spec(),
                SrcSpace::space_spec(),
                SrcAlpha::state_spec(),
                DstSpace::space_spec(),
                DstAlpha::state_spec(),
            ),
            c.alpha_spec() == self.alpha_spec(),
    {
        let col = [self.raw[0], self.raw[1], self.raw[2]];
        let alpha = self.raw[3];
        proof {
            assert(col@ =~= self.color_spec());
        }
        let d = convert_raw(
            col,
            alpha,
            SrcSpace::space(),
            SrcAlpha::state(),
            DstSpace::space(),
            DstAlpha::state(),
        );
        let c = ColorAlpha { raw: [d[0], d[1], d[2], alpha], _pd: PhantomData };
        proof {
            assert(c.color_spec() =~= d@);
        }
        c
    }

    /// Converts `self` to the provided `DstAlpha` alpha state, leaving the
    /// color space untouched.
    ///
    /// Converting to the same state leaves the raw values unchanged, and
    /// separating a premultiplied color with a zero alpha leaves the color
    /// channels unchanged.
    pub fn convert_alpha<DstAlpha: AlphaState>(self) -> (c: ColorAlpha<SrcSpace, DstAlpha>)
        ensures
            c.color_spec() == convert_alpha_spec(
                self.color_spec(),
                self.alpha_spec(),
                SrcAlpha::state_spec(),
                DstAlpha::state_spec(),
            ),
            c.alpha_spec() == self.alpha_spec(),
    {
        let col = [self.raw[0], self.raw[1], self.raw[2]];
        let alpha = self.raw[3];
        proof {
            assert(col@ =~= self.color_spec());
        }
        let d = convert_alpha_raw(col, alpha, SrcAlpha::state(), DstAlpha::state());
        let c = ColorAlpha { raw: [d[0], d[1], d[2], alpha], _pd: PhantomData };
        proof {
            assert(c.color_spec() =~= d@);
        }
        c
    }

    /// Interprets this color as `DstSpace` with no numeric transform. This
    /// assumes an external computation has already made the cast valid;
    /// misuse silently corrupts downstream math.
    pub fn cast_space<DstSpace: ColorSpace>(self) -> (c: ColorAlpha<DstSpace, SrcAlpha>)
        ensures
            c.raw == self.raw,
    {
        ColorAlpha { raw: self.raw, _pd: PhantomData }
    }

    /// Interprets this color as `DstAlpha` with no numeric transform. This
    /// assumes an external computation has already made the cast valid;
    /// misuse silently corrupts downstream math.
    pub fn cast_alpha_state<DstAlpha: AlphaState>(self) -> (c: ColorAlpha<SrcSpace, DstAlpha>)
        ensures
            c.raw == self.raw,
    {
        ColorAlpha { raw: self.raw, _pd: PhantomData }
    }

    /// Interprets this color as `DstSpace` and `DstAlpha` with no numeric
    /// transform. This assumes an external computation has already made the
    /// cast valid; misuse silently corrupts downstream math.
    pub fn cast<DstSpace: ColorSpace, DstAlpha: AlphaState>(self) -> (c: ColorAlpha<
        DstSpace,
        DstAlpha,
    >)
        ensures
            c.raw == self.raw,
    {
        ColorAlpha { raw: self.raw, _pd: PhantomData }
    }

    /// Converts `self` to a [`Color`] by first re-targeting the alpha
    /// state to premultiplied (when the space is nonlinear) and then
    /// stripping off the alpha component.
    pub fn into_color(self) -> (c: Color<SrcSpace, Display>)
        ensures
            c.raw@ == (if SrcSpace::space_spec() != linear_space_of(SrcSpace::space_spec()) {
                convert_alpha_spec(
                    self.color_spec(),
                    self.alpha_spec(),
                    SrcAlpha::state_spec(),
                    DynamicAlphaState::Premultiplied,
                )
            } else {
                self.color_spec()
            }),
    {
        let s = SrcSpace::space();
        let col = [self.raw[0], self.raw[1], self.raw[2]];
        proof {
            assert(col@ =~= self.color_spec());
        }
        if s != linear_space(s) {
            let d = convert_alpha_raw(
                col,
                self.raw[3],
                SrcAlpha::state(),
                DynamicAlphaState::Premultiplied,
            );
            Color::from_raw(d)
        } else {
            Color::from_raw(col)
        }
    }
}

impl<Spc, A> ColorAlpha<Spc, A> {
    /// Converts `self` to a [`Color`] by stripping off the alpha
    /// component, without touching the color channels.
    pub fn into_color_no_premultiply(self) -> (c: Color<Spc, Display>)
        ensures
            c.raw@ == self.color_spec(),
    {
        let col = [self.raw[0], self.raw[1], self.raw[2]];
        proof {
            assert(col@ =~= self.color_spec());
        }
        Color::from_raw(col)
    }
}

impl<Spc: LinearColorSpace, A: AlphaState> ColorAlpha<Spc, A> {
    /// Premultiplies `self` by multiplying its color components by its
    /// alpha. Does nothing if `self` is already premultiplied.
    pub fn premultiply(self) -> (c: ColorAlpha<Spc, Premultiplied>)
        ensures
            c.color_spec() == convert_alpha_spec(
                self.color_spec(),
                self.alpha_spec(),
                A::state_spec(),
                DynamicAlphaState::Premultiplied,
            ),
            c.alpha_spec() == self.alpha_spec(),
    {
        self.convert_alpha::<Premultiplied>()
    }

    /// Separates `self` by dividing its color components by its alpha.
    /// Does nothing if `self` is already separate, and leaves the color
    /// channels unchanged when alpha is zero.
    pub fn separate(self) -> (c: ColorAlpha<Spc, Separate>)
        ensures
            c.color_spec() == convert_alpha_spec(
                self.color_spec(),
                self.alpha_spec(),
                A::state_spec(),
                DynamicAlphaState::Separate,
            ),
            c.alpha_spec() == self.alpha_spec(),
    {
        self.convert_alpha::<Separate>()
    }
}

impl<Spc: NonlinearColorSpace, A: AlphaState> ColorAlpha<Spc, A> {
    /// Converts `self` into its associated linear color space by applying
    /// the source-decode half-step of the pipeline; alpha is untouched.
    pub fn linearize(self) -> (c: ColorAlpha<Spc::LinearSpace, A>)
        ensures
            c.color_spec() == src_transform_of(
                self.color_spec(),
                Spc::space_spec(),
                linear_space_of(Spc::space_spec()),
            ),
            c.alpha_spec() == self.alpha_spec(),
    {
        let s = Spc::space();
        let col = [self.raw[0], self.raw[1], self.raw[2]];
        proof {
            assert(col@ =~= self.color_spec());
        }
        let d = apply_src_transform(col, s, linear_space(s));
        let c = ColorAlpha { raw: [d[0], d[1], d[2], self.raw[3]], _pd: PhantomData };
        proof {
            assert(c.color_spec() =~= d@);
        }
        c
    }
}

impl<Spc: EncodedColorSpace, A: AlphaState> ColorAlpha<Spc, A> {
    /// Decodes `self` into its decoded (working) color space, which allows
    /// many more operations to be performed; alpha is untouched.
    pub fn decode(self) -> (c: ColorAlpha<Spc::DecodedSpace, A>)
        ensures
            c.color_spec() == src_transform_of(
                self.color_spec(),
                Spc::space_spec(),
                linear_space_of(Spc::space_spec()),
            ),
            c.alpha_spec() == self.alpha_spec(),
    {
        let s = Spc::space();
        let col = [self.raw[0], self.raw[1], self.raw[2]];
        proof {
            assert(col@ =~= self.color_spec());
            Spc::nonlinearity();
            Spc::decoded_space_law();
        }
        let d = apply_src_transform(col, s, Spc::DecodedSpace::space());
        let c = ColorAlpha { raw: [d[0], d[1], d[2], self.raw[3]], _pd: PhantomData };
        proof {
            assert(c.color_spec() =~= d@);
        }
        c
    }
}

impl<Spc: WorkingColorSpace> ColorAlpha<Spc, Separate> {
    /// Blends `self`'s color values with the color values from `other`
    /// using the default parameters. Does not blend alpha.
    pub fn blend<B: ColorBlender>(self, other: ColorAlpha<Spc, Separate>, factor: u32) -> (c:
        ColorAlpha<Spc, Separate>)
        ensures
            c.raw@[0] == B::blend_spec(
                self.raw@[0],
                other.raw@[0],
                factor,
                B::default_params_spec(),
            ),
            c.raw@[1] == B::blend_spec(
                self.raw@[1],
                other.raw@[1],
                factor,
                B::default_params_spec(),
            ),
            c.raw@[2] == B::blend_spec(
                self.raw@[2],
                other.raw@[2],
                factor,
                B::default_params_spec(),
            ),
            c.raw@[3] == self.raw@[3],
    {
        let params = B::default_params();
        self.blend_with::<B>(other, factor, params)
    }

    /// Blends `self`'s color values with the color values from `other`
    /// using the default parameters. Also blends alpha.
    pub fn blend_alpha<B: ColorBlender>(self, other: ColorAlpha<Spc, Separate>, factor: u32) -> (c:
        ColorAlpha<Spc, Separate>)
        ensures
            c.raw@[0] == B::blend_spec(
                self.raw@[0],
                other.raw@[0],
                factor,
                B::default_params_spec(),
            ),
            c.raw@[1] == B::blend_spec(
                self.raw@[1],
                other.raw@[1],
                factor,
                B::default_params_spec(),
            ),
            c.raw@[2] == B::blend_spec(
                self.raw@[2],
                other.raw@[2],
                factor,
                B::default_params_spec(),
            ),
            c.raw@[3] == B::blend_spec(
                self.raw@[3],
                other.raw@[3],
                factor,
                B::default_params_spec(),
            ),
    {
        let params = B::default_params();
        self.blend_alpha_with::<B>(other, factor, params)
    }

    /// Blends `self`'s color values with the color values from `other`,
    /// applying the strategy independently to each of the three color
    /// channels. Does not blend alpha: the result keeps `self`'s alpha.
    pub fn blend_with<B: ColorBlender>(
        self,
        other: ColorAlpha<Spc, Separate>,
        factor: u32,
        params: B::Params,
    ) -> (c: ColorAlpha<Spc, Separate>)
        ensures
            c.raw@[0] == B::blend_spec(self.raw@[0], other.raw@[0], factor, params),
            c.raw@[1] == B::blend_spec(self.raw@[1], other.raw@[1], factor, params),
            c.raw@[2] == B::blend_spec(self.raw@[2], other.raw@[2], factor, params),
            c.raw@[3] == self.raw@[3],
    {
        let x = B::blend_with(self.raw[0], other.raw[0], factor, params);
        let y = B::blend_with(self.raw[1], other.raw[1], factor, params);
        let z = B::blend_with(self.raw[2], other.raw[2], factor, params);
        ColorAlpha { raw: [x, y, z, self.raw[3]], _pd: PhantomData }
    }

    /// Blends `self`'s color values with the color values from `other`,
    /// applying the strategy independently to each of the three color
    /// channels and to alpha.
    pub fn blend_alpha_with<B: ColorBlender>(
        self,
        other: ColorAlpha<Spc, Separate>,
        factor: u32,
        params: B::Params,
    ) -> (c: ColorAlpha<Spc, Separate>)
        ensures
            c.raw@[0] == B::blend_spec(self.raw@[0], other.raw@[0], factor, params),
            c.raw@[1] == B::blend_spec(self.raw@[1], other.raw@[1], factor, params),
            c.raw@[2] == B::blend_spec(self.raw@[2], other.raw@[2], factor, params),
            c.raw@[3] == B::blend_spec(self.raw@[3], other.raw@[3], factor, params),
    {
        let x = B::blend_with(self.raw[0], other.raw[0], factor, params);
        let y = B::blend_with(self.raw[1], other.raw[1], factor, params);
        let z = B::blend_with(self.raw[2], other.raw[2], factor, params);
        let a = B::blend_with(self.raw[3], other.raw[3], factor, params);
        ColorAlpha { raw: [x, y, z, a], _pd: PhantomData }
    }
}

impl<Spc: AsU8Array, A: AlphaState> ColorAlpha<Spc, A> {
    /// Converts `self` to four bytes, scaling each channel by 255 and
    /// rounding. Meaningful only when all components of `self` lie in
    /// [0, 1]; out-of-range channels saturate.
    pub fn to_u8(self) -> (r: [u8; 4])
        ensures
            r@ == seq![
                u8_from_unit(self.raw@[0]),
                u8_from_unit(self.raw@[1]),
                u8_from_unit(self.raw@[2]),
                u8_from_unit(self.raw@[3]),
            ],
    {
        encode_u8(self.raw)
    }

    /// Decodes four bytes into a `ColorAlpha` with the specified space and
    /// alpha state, dividing each byte by 255.
    pub fn from_u8(encoded: [u8; 4]) -> (c: ColorAlpha<Spc, A>)
        ensures
            c.raw@ == seq![
                unit_from_u8(encoded@[0]),
                unit_from_u8(encoded@[1]),
                unit_from_u8(encoded@[2]),
                unit_from_u8(encoded@[3]),
            ],
    {
        ColorAlpha { raw: decode_u8(encoded), _pd: PhantomData }
    }
}

} // verus!
