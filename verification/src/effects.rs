//! Visual effects: glow, gradient fills and filters.

use vstd::prelude::*;
use ratatui::style::Color;
use crate::fixed::{clamp_unit, clamp_unit_spec, UNIT};
use crate::interpolate::Interpolate;

verus! {

/// How strong a glow is.
#[derive(Debug, Clone, Copy, PartialEq, Eq, Structural)]
pub enum GlowIntensity {
    Low,
    Medium,
    High,
}

/// A glow around borders and text.
#[derive(Debug, Clone, Copy)]
pub struct GlowEffect {
    pub color: Color,
    pub intensity: GlowIntensity,
    pub radius: u8,
}

impl GlowEffect {
    /// A glow of that colour, of medium intensity and radius one.
    pub fn new(color: Color) -> (r: Self)
        ensures
            r.color == color,
            r.intensity == GlowIntensity::Medium,
            r.radius == 1,
    {
        GlowEffect { color, intensity: GlowIntensity::Medium, radius: 1 }
    }

    /// The same glow with another intensity.
    pub fn intensity(self, intensity: GlowIntensity) -> (r: Self)
        ensures
            r == (GlowEffect { intensity: intensity, ..self }),
    {
        GlowEffect { intensity, ..self }
    }

    /// The same glow with another radius.
    pub fn radius(self, radius: u8) -> (r: Self)
        ensures
            r == (GlowEffect { radius: radius, ..self }),
    {
        GlowEffect { radius, ..self }
    }
}

/// The direction in which a gradient runs.
#[derive(Debug, Clone, Copy, PartialEq, Eq, Structural)]
pub enum GradientDirection {
    Horizontal,
    Vertical,
    Diagonal,
    Radial,
}

/// A fill that runs through a list of colours.
#[derive(Debug, Clone)]
pub struct GradientFill {
    pub colors: Vec<Color>,
    pub direction: GradientDirection,
}

/// The colour of a gradient through `colors` at `position`, in millionths of
/// its length.
///
/// Without colours the gradient is white, and with one it is that colour.
/// Otherwise the colours stand at equal distances; the colour at a position
/// is the blend of the two around it, and the last colour at the very end.
pub open spec fn gradient_color(colors: Seq<Color>, position: int) -> Color {
    let along = clamp_unit_spec(position) * (colors.len() - 1);
    let index = along / (UNIT as int);
    if colors.len() == 0 {
        Color::White
    } else if colors.len() == 1 {
        colors[0]
    } else if index >= colors.len() - 1 {
        colors.last()
    } else {
        colors[index].blend_spec(&colors[index + 1], along % (UNIT as int))
    }
}

impl GradientFill {
    /// A horizontal gradient through those colours.
    pub fn new(colors: Vec<Color>) -> (r: Self)
        ensures
            r.colors == colors,
            r.direction == GradientDirection::Horizontal,
    {
        GradientFill { colors, direction: GradientDirection::Horizontal }
    }

    /// The same gradient in another direction.
    pub fn direction(self, direction: GradientDirection) -> (r: Self)
        ensures
            r.colors == self.colors,
            r.direction == direction,
    {
        GradientFill { colors: self.colors, direction }
    }

    /// The colour at `position`, which is first limited to the unit
    /// interval.
    pub fn color_at(&self, position: i64) -> (r: Color)
        ensures
            r == gradient_color(self.colors@, position as int),
    {
        if self.colors.len() == 0 {
            return Color::White;
        }
        if self.colors.len() == 1 {
            return self.colors[0];
        }
        let position: i64 = clamp_unit(position);
        let steps: u128 = (self.colors.len() - 1) as u128;
        assert(0 <= (position as u128) * steps <= 1_000_000 * 0xffff_ffff_ffff_ffff)
            by (nonlinear_arith)
            requires
                0 <= position <= 1_000_000,
                0 <= steps <= 0xffff_ffff_ffff_ffff,
        ;
        let along: u128 = (position as u128) * steps;
        let index: u128 = along / (UNIT as u128);
        let part: u128 = along % (UNIT as u128);
        if index >= steps {
            return self.colors[self.colors.len() - 1];
        }
        let index: usize = index as usize;
        self.colors[index].lerp(&self.colors[index + 1], part as i64)
    }
}

/// The filters that can be laid over a shape.
#[derive(Debug, Clone, Copy, PartialEq, Eq, Structural)]
pub enum Filter {
    Blur,
    Glow,
    Shadow,
    Invert,
}

/// How strongly a background is blurred.
#[derive(Debug, Clone, Copy, PartialEq, Eq, Structural)]
pub enum BlurLevel {
    Low,
    Medium,
    High,
}

} // verus!
