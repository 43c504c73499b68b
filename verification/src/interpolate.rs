//! Values that can be animated: the blend of two of them at a fraction.

use vstd::prelude::*;
use ratatui::style::Color;
use crate::fixed::{blend, blend_clamped, clamp_range};

verus! {

/// Declares `ratatui::style::Color`, an enumeration of named colours, of
/// `Rgb` with three channels and of `Indexed` with a palette index, so
/// that verified code can build and match its variants. Nothing is claimed
/// beyond the definition of the type.
#[verifier::external_type_specification]
pub struct ExColor(Color);

/// A value that can be blended with another of its type. The fraction is in
/// millionths; outside the unit interval it extrapolates.
pub trait Interpolate: Sized {
    /// The blend of `self` and `other` at fraction `t`.
    spec fn blend_spec(&self, other: &Self, t: int) -> Self;

    /// Computes the blend of `self` and `other` at fraction `t`.
    fn lerp(&self, other: &Self, t: i64) -> (r: Self)
        ensures
            r == self.blend_spec(other, t as int),
    ;
}

/// A scalar in millionths of a whole.
#[derive(Debug, Clone, Copy, PartialEq, Eq, Structural)]
pub struct Scalar {
    pub millionths: i64,
}

impl Scalar {
    /// The scalar of that many millionths.
    pub fn new(millionths: i64) -> (r: Self)
        ensures
            r.millionths == millionths,
    {
        Scalar { millionths }
    }
}

/// The blend of two integers, limited to the range of the type that holds it.
pub open spec fn blend_within(a: int, b: int, t: int, lo: int, hi: int) -> int {
    clamp_range(blend(a, b, t), lo, hi)
}

impl Interpolate for Scalar {
    open spec fn blend_spec(&self, other: &Self, t: int) -> Self {
        Scalar {
            millionths: blend_within(
                self.millionths as int,
                other.millionths as int,
                t,
                i64::MIN as int,
                i64::MAX as int,
            ) as i64,
        }
    }

    fn lerp(&self, other: &Self, t: i64) -> (r: Self) {
        Scalar { millionths: blend_clamped(self.millionths, other.millionths, t, i64::MIN, i64::MAX) }
    }
}

impl Interpolate for u16 {
    open spec fn blend_spec(&self, other: &Self, t: int) -> Self {
        blend_within(*self as int, *other as int, t, 0, u16::MAX as int) as u16
    }

    fn lerp(&self, other: &Self, t: i64) -> (r: Self) {
        blend_clamped(*self as i64, *other as i64, t, 0, u16::MAX as i64) as u16
    }
}

impl Interpolate for i16 {
    open spec fn blend_spec(&self, other: &Self, t: int) -> Self {
        blend_within(*self as int, *other as int, t, i16::MIN as int, i16::MAX as int) as i16
    }

    fn lerp(&self, other: &Self, t: i64) -> (r: Self) {
        blend_clamped(*self as i64, *other as i64, t, i16::MIN as i64, i16::MAX as i64) as i16
    }
}

/// The blend of two colour channels.
pub open spec fn blend_channel(a: u8, b: u8, t: int) -> u8 {
    blend_within(a as int, b as int, t, 0, u8::MAX as int) as u8
}

/// Blends two colour channels.
pub fn lerp_channel(a: u8, b: u8, t: i64) -> (r: u8)
    ensures
        r == blend_channel(a, b, t as int),
{
    blend_clamped(a as i64, b as i64, t, 0, u8::MAX as i64) as u8
}

impl Interpolate for Color {
    /// Two RGB colours blend channel by channel. Any other pair does not
    /// blend: the result is the first colour at every fraction.
    open spec fn blend_spec(&self, other: &Self, t: int) -> Self {
        match (*self, *other) {
            (Color::Rgb(r1, g1, b1), Color::Rgb(r2, g2, b2)) => Color::Rgb(
                blend_channel(r1, r2, t),
                blend_channel(g1, g2, t),
                blend_channel(b1, b2, t),
            ),
            _ => *self,
        }
    }

    fn lerp(&self, other: &Self, t: i64) -> (r: Self) {
        match (*self, *other) {
            (Color::Rgb(r1, g1, b1), Color::Rgb(r2, g2, b2)) => Color::Rgb(
                lerp_channel(r1, r2, t),
                lerp_channel(g1, g2, t),
                lerp_channel(b1, b2, t),
            ),
            _ => *self,
        }
    }
}

impl<A: Interpolate, B: Interpolate> Interpolate for (A, B) {
    open spec fn blend_spec(&self, other: &Self, t: int) -> Self {
        (self.0.blend_spec(&other.0, t), self.1.blend_spec(&other.1, t))
    }

    fn lerp(&self, other: &Self, t: i64) -> (r: Self) {
        (self.0.lerp(&other.0, t), self.1.lerp(&other.1, t))
    }
}

} // verus!
