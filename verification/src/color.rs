//! The alpha-stripped color value.

use core::marker::PhantomData;
use vstd::prelude::*;

verus! {

/// A compile-time marker for the display-referred state. A color produced
/// by stripping alpha is always display-referred.
#[derive(Clone, Copy)]
pub struct Display;

/// A strongly typed color without an alpha channel, parameterized by a
/// color space and a state.
#[derive(Copy)]
pub struct Color<Spc, St> {
    /// The raw channel values, as IEEE-754 single-precision bit patterns.
    pub raw: [u32; 3],
    pub _pd: PhantomData<(Spc, St)>,
}

impl<Spc, St> Clone for Color<Spc, St> {
    fn clone(&self) -> (r: Self)
        ensures
            r.raw == self.raw,
    {
        Color { raw: self.raw, _pd: PhantomData }
    }
}

impl<Spc, St> Color<Spc, St> {
    /// Creates a `Color` with raw channel values `el1`, `el2` and `el3`.
    pub fn new(el1: u32, el2: u32, el3: u32) -> (r: Color<Spc, St>)
        ensures
            r.raw@ == seq![el1, el2, el3],
    {
        let r = Color { raw: [el1, el2, el3], _pd: PhantomData };
        proof {
            assert(r.raw@ =~= seq![el1, el2, el3]);
        }
        r
    }

    /// Creates a `Color` with the raw channel values contained in `raw`.
    pub fn from_raw(raw: [u32; 3]) -> (r: Color<Spc, St>)
        ensures
            r.raw == raw,
    {
        Color { raw, _pd: PhantomData }
    }
}

} // verus!
