//! Color-space and alpha-state tags.
//!
//! A color space is a member of a closed catalog, classified as linear
//! (channels proportional to light intensity) or nonlinear (encoded); every
//! nonlinear space decodes to exactly one linear working space. An alpha
//! state says whether the color channels are independent of alpha
//! (`Separate`) or pre-scaled by it (`Premultiplied`).
//!
//! Each tag exists twice: as a runtime value (`DynamicColorSpace`,
//! `DynamicAlphaState`) used by the dynamic, data-tagged color, and as a
//! zero-size compile-time marker (`EncodedSrgb`, `LinearSrgb`, `Separate`,
//! `Premultiplied`) used as a type parameter of the typed color. The traits
//! below tie each marker to its runtime value.

use vstd::prelude::*;

verus! {

/// A runtime color-space tag: one member of the closed catalog.
#[derive(Clone, Copy, Debug, PartialEq, Eq, Structural)]
pub enum DynamicColorSpace {
    /// Nonlinear sRGB, encoded with the sRGB transfer function.
    EncodedSrgb,
    /// Linear sRGB: sRGB primaries and white point, linear channels.
    LinearSrgb,
}

/// A runtime alpha-state tag.
#[derive(Clone, Copy, Debug, PartialEq, Eq, Structural)]
pub enum DynamicAlphaState {
    /// Color channels are independent of the alpha channel.
    Separate,
    /// Color channels have been multiplied by the alpha channel.
    Premultiplied,
}

/// A runtime state tag for alpha-stripped colors; such colors are always
/// display-referred.
#[derive(Clone, Copy, Debug, PartialEq, Eq, Structural)]
pub enum DynamicState {
    Display,
}

/// Whether a space's channels are proportional to light intensity.
pub open spec fn is_linear(s: DynamicColorSpace) -> bool {
    match s {
        DynamicColorSpace::EncodedSrgb => false,
        DynamicColorSpace::LinearSrgb => true,
    }
}

/// The linear working space a space decodes to; a linear space is its own
/// working space.
pub open spec fn linear_space_of(s: DynamicColorSpace) -> DynamicColorSpace {
    match s {
        DynamicColorSpace::EncodedSrgb => DynamicColorSpace::LinearSrgb,
        DynamicColorSpace::LinearSrgb => DynamicColorSpace::LinearSrgb,
    }
}

/// Every space in the catalog decodes to a linear space.
pub proof fn lemma_linear_space_is_linear(s: DynamicColorSpace)
    ensures
        is_linear(linear_space_of(s)),
{
}

/// Returns the linear working space a space decodes to.
pub fn linear_space(s: DynamicColorSpace) -> (r: DynamicColorSpace)
    ensures
        r == linear_space_of(s),
{
    match s {
        DynamicColorSpace::EncodedSrgb => DynamicColorSpace::LinearSrgb,
        DynamicColorSpace::LinearSrgb => DynamicColorSpace::LinearSrgb,
    }
}

/// A compile-time marker for a color space in the catalog.
pub trait ColorSpace: Sized {
    /// The runtime tag this marker stands for.
    spec fn space_spec() -> DynamicColorSpace;

    /// Returns the runtime tag this marker stands for.
    fn space() -> (s: DynamicColorSpace)
        ensures
            s == Self::space_spec(),
    ;
}

/// A marker for a space whose channels are linear.
pub trait LinearColorSpace: ColorSpace {
    /// The catalog classifies this space as linear.
    proof fn linearity()
        ensures
            is_linear(Self::space_spec()),
    ;
}

/// A marker for a linear space in which component-wise arithmetic (such as
/// blending) is meaningful.
pub trait WorkingColorSpace: LinearColorSpace {

}

/// A marker for a nonlinear space, reachable from its working space by an
/// encode step.
pub trait NonlinearColorSpace: ColorSpace {
    /// The linear working space this space decodes to.
    type LinearSpace: LinearColorSpace;

    /// The catalog classifies this space as nonlinear, and the
    /// `LinearSpace` marker agrees with the catalog.
    proof fn nonlinearity()
        ensures
            !is_linear(Self::space_spec()),
            Self::LinearSpace::space_spec() == linear_space_of(Self::space_spec()),
    ;
}

/// A marker for a space stored under an explicit encoding, with a decode
/// step to its working space.
pub trait EncodedColorSpace: NonlinearColorSpace {
    /// The working space the decode step reaches.
    type DecodedSpace: WorkingColorSpace;

    /// The `DecodedSpace` marker agrees with the catalog's classification.
    proof fn decoded_space_law()
        ensures
            Self::DecodedSpace::space_spec() == linear_space_of(Self::space_spec()),
    ;
}

/// A marker for a space whose channels may be stored as four bytes.
pub trait AsU8Array: ColorSpace {

}

/// A compile-time marker for an alpha state.
pub trait AlphaState: Sized {
    /// The runtime tag this marker stands for.
    spec fn state_spec() -> DynamicAlphaState;

    /// Returns the runtime tag this marker stands for.
    fn state() -> (s: DynamicAlphaState)
        ensures
            s == Self::state_spec(),
    ;
}

/// The encoded (nonlinear) sRGB color space.
#[derive(Clone, Copy)]
pub struct EncodedSrgb;

/// The linear sRGB color space.
#[derive(Clone, Copy)]
pub struct LinearSrgb;

/// The separate (unpremultiplied) alpha state.
#[derive(Clone, Copy)]
pub struct Separate;

/// The premultiplied alpha state.
#[derive(Clone, Copy)]
pub struct Premultiplied;

impl ColorSpace for EncodedSrgb {
    open spec fn space_spec() -> DynamicColorSpace {
        DynamicColorSpace::EncodedSrgb
    }

    fn space() -> (s: DynamicColorSpace) {
        DynamicColorSpace::EncodedSrgb
    }
}

impl NonlinearColorSpace for EncodedSrgb {
    type LinearSpace = LinearSrgb;

    proof fn nonlinearity() {
    }
}

impl EncodedColorSpace for EncodedSrgb {
    type DecodedSpace = LinearSrgb;

    proof fn decoded_space_law() {
    }
}

impl AsU8Array for EncodedSrgb {

}

impl ColorSpace for LinearSrgb {
    open spec fn space_spec() -> DynamicColorSpace {
        DynamicColorSpace::LinearSrgb
    }

    fn space() -> (s: DynamicColorSpace) {
        DynamicColorSpace::LinearSrgb
    }
}

impl LinearColorSpace for LinearSrgb {
    proof fn linearity() {
    }
}

impl WorkingColorSpace for LinearSrgb {

}

impl AlphaState for Separate {
    open spec fn state_spec() -> DynamicAlphaState {
        DynamicAlphaState::Separate
    }

    fn state() -> (s: DynamicAlphaState) {
        DynamicAlphaState::Separate
    }
}

impl AlphaState for Premultiplied {
    open spec fn state_spec() -> DynamicAlphaState {
        DynamicAlphaState::Premultiplied
    }

    fn state() -> (s: DynamicAlphaState) {
        DynamicAlphaState::Premultiplied
    }
}

} // verus!
