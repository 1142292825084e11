//! The dynamic (runtime-tagged) color and the checked bridge back to the
//! typed representation.

use vstd::prelude::*;

use crate::color_alpha::ColorAlpha;
use crate::pipeline::convert_alpha_raw;
use crate::pipeline::convert_alpha_spec;
use crate::pipeline::convert_raw;
use crate::pipeline::convert_spec;
use crate::tags::AlphaState;
use crate::tags::ColorSpace;
use crate::tags::DynamicAlphaState;
use crate::tags::DynamicColorSpace;
use crate::tags::DynamicState;

verus! {

/// The failure of a checked downcast from a dynamic color to a typed one,
/// carrying the actual and the expected tag.
#[derive(Clone, Copy, Debug, PartialEq, Eq, Structural)]
pub enum DowncastError {
    /// The stored color space differs from the requested one.
    MismatchedSpace(DynamicColorSpace, DynamicColorSpace),
    /// The stored alpha state differs from the requested one.
    MismatchedAlphaState(DynamicAlphaState, DynamicAlphaState),
}

/// A dynamic color without an alpha channel; its space and state are data.
#[derive(Clone, Copy, Debug)]
pub struct DynamicColor {
    /// The raw channel values, as IEEE-754 single-precision bit patterns.
    pub raw: [u32; 3],
    pub space: DynamicColorSpace,
    pub state: DynamicState,
}

impl DynamicColor {
    /// Creates a new `DynamicColor` with the given raw values, space and
    /// state.
    pub fn new(raw: [u32; 3], space: DynamicColorSpace, state: DynamicState) -> (c: DynamicColor)
        ensures
            c.raw == raw,
            c.space == space,
            c.state == state,
    {
        DynamicColor { raw, space, state }
    }
}

/// A dynamic color with an alpha channel; its space and alpha state are
/// ordinary runtime values rather than compile-time markers. This is the
/// representation used for serialization and for heterogeneous storage.
#[derive(Clone, Copy, Debug)]
pub struct DynamicColorAlpha {
    /// The raw channel values. Don't combine two colors' raw values unless
    /// they are in the same color space and alpha state.
    pub raw: [u32; 4],
    pub space: DynamicColorSpace,
    pub alpha_state: DynamicAlphaState,
}

impl PartialEq for DynamicColor {
    fn eq(&self, other: &DynamicColor) -> (r: bool) {
        let r = self.raw[0] == other.raw[0] && self.raw[1] == other.raw[1] && self.raw[2]
            == other.raw[2] && self.space == other.space && self.state == other.state;
        proof {
            if r {
                assert(self.raw@ =~= other.raw@);
            }
        }
        r
    }
}

impl vstd::std_specs::cmp::PartialEqSpecImpl for DynamicColor {
    open spec fn obeys_eq_spec() -> bool {
        true
    }

    open spec fn eq_spec(&self, other: &DynamicColor) -> bool {
        self.raw@ == other.raw@ && self.space == other.space && self.state == other.state
    }
}

impl PartialEq for DynamicColorAlpha {
    fn eq(&self, other: &DynamicColorAlpha) -> (r: bool) {
        let r = self.raw[0] == other.raw[0] && self.raw[1] == other.raw[1] && self.raw[2]
            == other.raw[2] && self.raw[3] == other.raw[3] && self.space == other.space
            && self.alpha_state == other.alpha_state;
        proof {
            if r {
                assert(self.raw@ =~= other.raw@);
            }
        }
        r
    }
}

impl vstd::std_specs::cmp::PartialEqSpecImpl for DynamicColorAlpha {
    open spec fn obeys_eq_spec() -> bool {
        true
    }

    open spec fn eq_spec(&self, other: &DynamicColorAlpha) -> bool {
        self.raw@ == other.raw@ && self.space == other.space && self.alpha_state
            == other.alpha_state
    }
}

impl DynamicColorAlpha {
    /// The three color channels of the raw value.
    pub open spec fn color_spec(self) -> Seq<u32> {
        seq![self.raw@[0], self.raw@[1], self.raw@[2]]
    }

    /// The alpha channel of the raw value.
    pub open spec fn alpha_spec(self) -> u32 {
        self.raw@[3]
    }

    /// Creates a new `DynamicColorAlpha` with the specified raw color
    /// components, color space, and alpha state.
    pub fn new(raw: [u32; 4], space: DynamicColorSpace, alpha_state: DynamicAlphaState) -> (c:
        DynamicColorAlpha)
        ensures
            c.raw == raw,
            c.space == space,
            c.alpha_state == alpha_state,
    {
        DynamicColorAlpha { raw, space, alpha_state }
    }

    /// Converts `self` to a [`DynamicColor`] by first premultiplying it if
    /// it is not already, then stripping off the alpha component.
    pub fn into_color(self) -> (c: DynamicColor)
        ensures
            c.raw@ == convert_alpha_spec(
                self.color_spec(),
                self.alpha_spec(),
                self.alpha_state,
                DynamicAlphaState::Premultiplied,
            ),
            c.space == self.space,
            c.state == DynamicState::Display,
    {
        let color_alpha = self.convert_alpha_state(DynamicAlphaState::Premultiplied);
        let col = [color_alpha.raw[0], color_alpha.raw[1], color_alpha.raw[2]];
        proof {
            assert(col@ =~= color_alpha.color_spec());
        }
        DynamicColor::new(col, self.space, DynamicState::Display)
    }

    /// Converts `self` to a [`DynamicColor`] by stripping off the alpha
    /// component, without checking whether it is premultiplied.
    pub fn into_color_no_premultiply(self) -> (c: DynamicColor)
        ensures
            c.raw@ == self.color_spec(),
            c.space == self.space,
            c.state == DynamicState::Display,
    {
        let col = [self.raw[0], self.raw[1], self.raw[2]];
        proof {
            assert(col@ =~= self.color_spec());
        }
        DynamicColor::new(col, self.space, DynamicState::Display)
    }

    /// Converts from one color space and alpha state to another, running
    /// the same five-stage pipeline as the typed conversion. The alpha
    /// channel passes through unchanged, and separating a premultiplied
    /// color with a zero alpha leaves the color channels unchanged.
    pub fn convert(self, dst_space: DynamicColorSpace, dst_alpha: DynamicAlphaState) -> (c:
        DynamicColorAlpha)
        ensures
            c.color_spec() == convert_spec(
                self.color_spec(),
                self.alpha_spec(),
                self.space,
                self.alpha_state,
                dst_space,
                dst_alpha,
            ),
            c.alpha_spec() == self.alpha_spec(),
            c.space == dst_space,
            c.alpha_state == dst_alpha,
    {
        let col = [self.raw[0], self.raw[1], self.raw[2]];
        let alpha = self.raw[3];
        proof {
            assert(col@ =~= self.color_spec());
        }
        let d = convert_raw(col, alpha, self.space, self.alpha_state, dst_space, dst_alpha);
        let c = DynamicColorAlpha {
            raw: [d[0], d[1], d[2], alpha],
            space: dst_space,
            alpha_state: dst_alpha,
        };
        proof {
            assert(c.color_spec() =~= d@);
        }
        c
    }

    /// Converts `self` to the specified space and alpha state, then
    /// downcasts it to a typed [`ColorAlpha`]; since the conversion makes
    /// the tags match, this cannot fail.
    pub fn downcast_convert<DstSpace: ColorSpace, DstAlpha: AlphaState>(self) -> (c: ColorAlpha<
        DstSpace,
        DstAlpha,
    >)
        ensures
            c.color_spec() == convert_spec(
                self.color_spec(),
                self.alpha_spec(),
                self.space,
                self.alpha_state,
                DstSpace::space_spec(),
                DstAlpha::state_spec(),
            ),
            c.alpha_spec() == self.alpha_spec(),
    {
        let dst = self.convert(DstSpace::space(), DstAlpha::state());
        let c = ColorAlpha::from_raw(dst.raw);
        proof {
            assert(c.color_spec() =~= dst.color_spec());
        }
        c
    }

    /// Converts `self` to the provided `dst_alpha` alpha state.
    ///
    /// Converting to the same state leaves the raw values unchanged, and
    /// separating a premultiplied color with a zero alpha leaves the color
    /// channels unchanged.
    pub fn convert_alpha_state(self, dst_alpha: DynamicAlphaState) -> (c: DynamicColorAlpha)
        ensures
            c.color_spec() == convert_alpha_spec(
                self.color_spec(),
                self.alpha_spec(),
                self.alpha_state,
                dst_alpha,
            ),
            c.alpha_spec() == self.alpha_spec(),
            c.space == self.space,
            c.alpha_state == dst_alpha,
    {
        let col = [self.raw[0], self.raw[1], self.raw[2]];
        let alpha = self.raw[3];
        proof {
            assert(col@ =~= self.color_spec());
        }
        let d = convert_alpha_raw(col, alpha, self.alpha_state, dst_alpha);
        let c = DynamicColorAlpha {
            raw: [d[0], d[1], d[2], alpha],
            space: self.space,
            alpha_state: dst_alpha,
        };
        proof {
            assert(c.color_spec() =~= d@);
        }
        c
    }

    /// Attempts to convert to a typed [`ColorAlpha`]. Succeeds, returning
    /// the same raw values, exactly when `self`'s color space and alpha
    /// state equal the requested types'; otherwise reports which tag
    /// mismatched, the space being checked first.
    pub fn downcast<Spc: ColorSpace, A: AlphaState>(&self) -> (r: Result<
        ColorAlpha<Spc, A>,
        DowncastError,
    >)
        ensures
            (self.space == Spc::space_spec() && self.alpha_state == A::state_spec()) <==> r is Ok,
            r matches Ok(c) ==> c.raw == self.raw,
            self.space != Spc::space_spec() ==> r == Result::<ColorAlpha<Spc, A>, DowncastError>::Err(
                DowncastError::MismatchedSpace(self.space, Spc::space_spec()),
            ),
            self.space == Spc::space_spec() && self.alpha_state != A::state_spec() ==> r
                == Result::<ColorAlpha<Spc, A>, DowncastError>::Err(
                DowncastError::MismatchedAlphaState(self.alpha_state, A::state_spec()),
            ),
    {
        if self.space != Spc::space() {
            return Err(DowncastError::MismatchedSpace(self.space, Spc::space()));
        }
        if self.alpha_state != A::state() {
            return Err(DowncastError::MismatchedAlphaState(self.alpha_state, A::state()));
        }
        Ok(ColorAlpha::from_raw(self.raw))
    }

    /// Converts to a typed [`ColorAlpha`] without checking that the space
    /// and alpha state match. Use only if you are sure that this color is
    /// in the correct format.
    pub fn downcast_unchecked<Spc: ColorSpace, A: AlphaState>(&self) -> (c: ColorAlpha<Spc, A>)
        ensures
            c.raw == self.raw,
    {
        ColorAlpha::from_raw(self.raw)
    }
}

impl<Spc: ColorSpace, A: AlphaState> ColorAlpha<Spc, A> {
    /// Upcasts `self` into a [`DynamicColorAlpha`] carrying the same raw
    /// values and the runtime tags of `Spc` and `A`.
    pub fn dynamic(&self) -> (c: DynamicColorAlpha)
        ensures
            c.raw == self.raw,
            c.space == Spc::space_spec(),
            c.alpha_state == A::state_spec(),
    {
        DynamicColorAlpha { raw: self.raw, space: Spc::space(), alpha_state: A::state() }
    }
}

} // verus!
