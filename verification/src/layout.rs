//! Layouts: a direction, a list of size constraints and a margin.

use vstd::prelude::*;
use ratatui::layout::Direction;

verus! {

/// Declares `ratatui::layout::Direction`, an enumeration of `Horizontal`
/// and `Vertical`, so that verified code can name its variants. Nothing is
/// claimed beyond the definition of the type.
#[verifier::external_type_specification]
pub struct ExDirection(Direction);

/// How much room a part of a layout asks for.
#[derive(Debug, Clone, Copy, PartialEq, Eq, Structural)]
pub enum Constraint {
    Length(u16),
    Percentage(u16),
    Ratio(u32, u32),
    Min(u16),
    Max(u16),
}

/// A layout: the direction in which an area is split, the constraints on
/// the parts, and a margin.
pub struct Layout {
    direction: Direction,
    constraints: Vec<Constraint>,
    margin: (u16, u16),
}

/// What a layout holds, as plain values.
pub struct LayoutView {
    pub direction: Direction,
    pub constraints: Seq<Constraint>,
    pub margin: (u16, u16),
}

impl View for Layout {
    type V = LayoutView;

    closed spec fn view(&self) -> LayoutView {
        LayoutView {
            direction: self.direction,
            constraints: self.constraints@,
            margin: self.margin,
        }
    }
}

impl Layout {
    /// A layout that splits from top to bottom, without margin.
    pub fn vertical(constraints: Vec<Constraint>) -> (r: Self)
        ensures
            r@ == (LayoutView {
                direction: Direction::Vertical,
                constraints: constraints@,
                margin: (0u16, 0u16),
            }),
    {
        Layout { direction: Direction::Vertical, constraints, margin: (0, 0) }
    }

    /// A layout that splits from left to right, without margin.
    pub fn horizontal(constraints: Vec<Constraint>) -> (r: Self)
        ensures
            r@ == (LayoutView {
                direction: Direction::Horizontal,
                constraints: constraints@,
                margin: (0u16, 0u16),
            }),
    {
        Layout { direction: Direction::Horizontal, constraints, margin: (0, 0) }
    }

    /// The same layout with a vertical margin `v` and a horizontal margin
    /// `h`.
    pub fn with_margin(self, v: u16, h: u16) -> (r: Self)
        ensures
            r@ == (LayoutView { margin: (v, h), ..self@ }),
    {
        Layout { direction: self.direction, constraints: self.constraints, margin: (v, h) }
    }

    /// The direction in which the layout splits.
    pub fn direction(&self) -> (r: Direction)
        ensures
            r == self@.direction,
    {
        self.direction
    }

    /// The margin, vertical before horizontal.
    pub fn margin(&self) -> (r: (u16, u16))
        ensures
            r == self@.margin,
    {
        self.margin
    }

    /// The number of constraints.
    pub fn len(&self) -> (r: usize)
        ensures
            r == self@.constraints.len(),
    {
        self.constraints.len()
    }

    /// The constraint at `index`, if there is one.
    pub fn constraint(&self, index: usize) -> (r: Option<Constraint>)
        ensures
            r == if index < self@.constraints.len() {
                Some(self@.constraints[index as int])
            } else {
                None
            },
    {
        if index < self.constraints.len() {
            Some(self.constraints[index])
        } else {
            None
        }
    }
}

} // verus!
