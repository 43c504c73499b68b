//! Rendering resolutions and colour schemes.

use vstd::prelude::*;
use ratatui::style::Color;

verus! {

/// How finely shapes are drawn into character cells.
#[derive(Debug, Clone, Copy, PartialEq, Eq, Structural)]
pub enum Resolution {
    /// One character per cell.
    CharCell,
    /// Braille patterns: two by four dots per cell.
    Braille,
    /// Block elements for filled shapes.
    Block,
}

/// A colour scheme: five colours under one of four names.
#[derive(Debug, Clone, Copy)]
pub enum ColorScheme {
    CyberPunk { primary: Color, secondary: Color, accent: Color, background: Color, glow: Color },
    NeonTokyo { primary: Color, secondary: Color, accent: Color, background: Color, glow: Color },
    Matrix { primary: Color, secondary: Color, accent: Color, background: Color, glow: Color },
    Holographic { primary: Color, secondary: Color, accent: Color, background: Color, glow: Color },
}

impl ColorScheme {
    /// The primary colour of a scheme.
    pub open spec fn primary_spec(self) -> Color {
        match self {
            ColorScheme::CyberPunk { primary, .. } => primary,
            ColorScheme::NeonTokyo { primary, .. } => primary,
            ColorScheme::Matrix { primary, .. } => primary,
            ColorScheme::Holographic { primary, .. } => primary,
        }
    }

    /// The glow colour of a scheme.
    pub open spec fn glow_spec(self) -> Color {
        match self {
            ColorScheme::CyberPunk { glow, .. } => glow,
            ColorScheme::NeonTokyo { glow, .. } => glow,
            ColorScheme::Matrix { glow, .. } => glow,
            ColorScheme::Holographic { glow, .. } => glow,
        }
    }

    /// Hot pink on dark purple.
    pub fn cyberpunk() -> (r: Self)
        ensures
            r == (ColorScheme::CyberPunk {
                primary: Color::Rgb(255, 0, 128),
                secondary: Color::Rgb(0, 255, 255),
                accent: Color::Rgb(255, 255, 0),
                background: Color::Rgb(10, 0, 20),
                glow: Color::Rgb(180, 0, 255),
            }),
    {
        ColorScheme::CyberPunk {
            primary: Color::Rgb(255, 0, 128),
            secondary: Color::Rgb(0, 255, 255),
            accent: Color::Rgb(255, 255, 0),
            background: Color::Rgb(10, 0, 20),
            glow: Color::Rgb(180, 0, 255),
        }
    }

    /// Deep pink on navy.
    pub fn neon_tokyo() -> (r: Self)
        ensures
            r == (ColorScheme::NeonTokyo {
                primary: Color::Rgb(255, 20, 147),
                secondary: Color::Rgb(0, 191, 255),
                accent: Color::Rgb(255, 215, 0),
                background: Color::Rgb(15, 15, 30),
                glow: Color::Rgb(138, 43, 226),
            }),
    {
        ColorScheme::NeonTokyo {
            primary: Color::Rgb(255, 20, 147),
            secondary: Color::Rgb(0, 191, 255),
            accent: Color::Rgb(255, 215, 0),
            background: Color::Rgb(15, 15, 30),
            glow: Color::Rgb(138, 43, 226),
        }
    }

    /// Bright green on black.
    pub fn matrix() -> (r: Self)
        ensures
            r == (ColorScheme::Matrix {
                primary: Color::Rgb(0, 255, 65),
                secondary: Color::Rgb(0, 200, 50),
                accent: Color::Rgb(150, 255, 150),
                background: Color::Rgb(0, 0, 0),
                glow: Color::Rgb(0, 255, 100),
            }),
    {
        ColorScheme::Matrix {
            primary: Color::Rgb(0, 255, 65),
            secondary: Color::Rgb(0, 200, 50),
            accent: Color::Rgb(150, 255, 150),
            background: Color::Rgb(0, 0, 0),
            glow: Color::Rgb(0, 255, 100),
        }
    }

    /// Light blue on deep blue.
    pub fn holographic() -> (r: Self)
        ensures
            r == (ColorScheme::Holographic {
                primary: Color::Rgb(100, 200, 255),
                secondary: Color::Rgb(200, 100, 255),
                accent: Color::Rgb(255, 255, 255),
                background: Color::Rgb(5, 10, 25),
                glow: Color::Rgb(150, 200, 255),
            }),
    {
        ColorScheme::Holographic {
            primary: Color::Rgb(100, 200, 255),
            secondary: Color::Rgb(200, 100, 255),
            accent: Color::Rgb(255, 255, 255),
            background: Color::Rgb(5, 10, 25),
            glow: Color::Rgb(150, 200, 255),
        }
    }

    /// The primary colour.
    pub fn primary(&self) -> (r: Color)
        ensures
            r == self.primary_spec(),
    {
        match self {
            ColorScheme::CyberPunk { primary, .. } => *primary,
            ColorScheme::NeonTokyo { primary, .. } => *primary,
            ColorScheme::Matrix { primary, .. } => *primary,
            ColorScheme::Holographic { primary, .. } => *primary,
        }
    }

    /// The glow colour.
    pub fn glow(&self) -> (r: Color)
        ensures
            r == self.glow_spec(),
    {
        match self {
            ColorScheme::CyberPunk { glow, .. } => *glow,
            ColorScheme::NeonTokyo { glow, .. } => *glow,
            ColorScheme::Matrix { glow, .. } => *glow,
            ColorScheme::Holographic { glow, .. } => *glow,
        }
    }
}

} // verus!
