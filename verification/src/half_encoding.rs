//! A half-precision storage encoding.

use vstd::prelude::*;

verus! {

/// A working encoding that stores quasi-radiance values in the linear sRGB
/// space as three half-precision floats.
///
/// The numeric packing and unpacking between half-precision storage and
/// the single-precision working channels is half-float arithmetic, which
/// this library does not perform itself; the marker only identifies the
/// encoding and its working space, [`crate::tags::LinearSrgb`].
pub struct SrgbQuasiRadianceF16;

} // verus!
