//! Border styles and colour themes.

use vstd::prelude::*;
use ratatui::style::Color;
use ratatui::widgets::BorderType;

verus! {

/// Declares `ratatui::widgets::BorderType`, an enumeration without fields,
/// so that verified code can name its variants. Nothing is claimed beyond
/// the definition of the type.
#[verifier::external_type_specification]
pub struct ExBorderType(BorderType);

/// How a border is drawn.
#[derive(Debug, Clone, Copy, PartialEq, Eq, Structural)]
pub enum BorderStyle {
    Rounded,
    Single,
    Double,
    Thick,
    Hidden,
}

impl BorderStyle {
    /// The border type of the rendering library for this style. A border
    /// that is not drawn maps to the plain type, as the single one does.
    pub fn to_ratatui_border(&self) -> (r: BorderType)
        ensures
            r == match *self {
                BorderStyle::Rounded => BorderType::Rounded,
                BorderStyle::Single => BorderType::Plain,
                BorderStyle::Double => BorderType::Double,
                BorderStyle::Thick => BorderType::Thick,
                BorderStyle::Hidden => BorderType::Plain,
            },
    {
        match self {
            BorderStyle::Rounded => BorderType::Rounded,
            BorderStyle::Single => BorderType::Plain,
            BorderStyle::Double => BorderType::Double,
            BorderStyle::Thick => BorderType::Thick,
            BorderStyle::Hidden => BorderType::Plain,
        }
    }
}

/// The colours and the border style of a user interface.
#[derive(Debug, Clone, Copy)]
pub struct Theme {
    pub primary: Color,
    pub secondary: Color,
    pub background: Color,
    pub text: Color,
    pub border_style: BorderStyle,
    pub accent: Color,
}

impl Theme {
    /// The dark theme, as a value.
    pub open spec fn dark_spec() -> Theme {
        Theme {
            primary: Color::Magenta,
            secondary: Color::Blue,
            background: Color::Black,
            text: Color::White,
            border_style: BorderStyle::Rounded,
            accent: Color::Cyan,
        }
    }

    /// The dark theme.
    pub fn dark() -> (r: Self)
        ensures
            r == Theme::dark_spec(),
    {
        Theme {
            primary: Color::Magenta,
            secondary: Color::Blue,
            background: Color::Black,
            text: Color::White,
            border_style: BorderStyle::Rounded,
            accent: Color::Cyan,
        }
    }

    /// The light theme: the dark one with background and text exchanged.
    pub fn light() -> (r: Self)
        ensures
            r == (Theme { background: Color::White, text: Color::Black, ..Theme::dark_spec() }),
    {
        Theme {
            primary: Color::Magenta,
            secondary: Color::Blue,
            background: Color::White,
            text: Color::Black,
            border_style: BorderStyle::Rounded,
            accent: Color::Cyan,
        }
    }

    /// The same theme with another primary colour.
    pub fn set_primary(self, color: Color) -> (r: Self)
        ensures
            r == (Theme { primary: color, ..self }),
    {
        Theme { primary: color, ..self }
    }

    /// The same theme with another secondary colour.
    pub fn set_secondary(self, color: Color) -> (r: Self)
        ensures
            r == (Theme { secondary: color, ..self }),
    {
        Theme { secondary: color, ..self }
    }

    /// The same theme with another border style.
    pub fn set_border_style(self, style: BorderStyle) -> (r: Self)
        ensures
            r == (Theme { border_style: style, ..self }),
    {
        Theme { border_style: style, ..self }
    }
}

impl Default for Theme {
    fn default() -> (r: Self)
        ensures
            r == Theme::dark_spec(),
    {
        Theme::dark()
    }
}

} // verus!
