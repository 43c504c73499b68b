//! A grid of character cells to draw on.

use vstd::prelude::*;
use ratatui::style::Color;
use crate::scheme::Resolution;

verus! {

/// One cell of a canvas: a character and, possibly, its colour.
#[derive(Debug, Clone, Copy, PartialEq, Eq)]
pub struct Cell {
    pub glyph: char,
    pub color: Option<Color>,
}

/// A canvas of character cells. Drawing outside of it has no effect.
pub struct SvgCanvas {
    width: u16,
    height: u16,
    resolution: Resolution,
    /// The cells line by line, each line from left to right.
    cells: Vec<Cell>,
}

/// What a canvas holds: its size, its resolution and its rows of cells.
pub struct CanvasView {
    pub width: u16,
    pub height: u16,
    pub resolution: Resolution,
    pub cells: Seq<Seq<Cell>>,
}

/// The cell of an empty canvas: a blank without colour.
pub open spec fn blank() -> Cell {
    Cell { glyph: ' ', color: None }
}

impl CanvasView {
    /// Whether there is a row for each line and a cell for each column.
    pub open spec fn well_formed(self) -> bool {
        &&& self.cells.len() == self.height
        &&& forall|y: int| 0 <= y < self.height ==> (#[trigger] self.cells[y]).len() == self.width
    }

    /// Whether the canvas has a cell at column `x` of line `y`.
    pub open spec fn holds(self, x: int, y: int) -> bool {
        0 <= x < self.width && 0 <= y < self.height
    }

    /// The canvas with `paint(x, y)` in each cell for which it gives a cell,
    /// and the old cell elsewhere.
    pub open spec fn painted(self, paint: spec_fn(int, int) -> Option<Cell>) -> CanvasView {
        CanvasView {
            cells: Seq::new(
                self.height as nat,
                |y: int|
                    Seq::new(
                        self.width as nat,
                        |x: int|
                            match paint(x, y) {
                                Some(cell) => cell,
                                None => self.cells[y][x],
                            },
                    ),
            ),
            ..self
        }
    }

    /// The canvas with `cell` wherever `mask` holds.
    pub open spec fn covered(self, mask: spec_fn(int, int) -> bool, cell: Cell) -> CanvasView {
        self.painted(
            |x: int, y: int|
                if mask(x, y) {
                    Some(cell)
                } else {
                    None
                },
        )
    }
}

/// The character of the outline of a rectangle at column `px` of line `py`,
/// if the outline passes there. The rectangle has its upper left corner at
/// column `x` of line `y`; narrower or lower than two cells it has no
/// outline.
pub open spec fn outline_glyph(x: int, y: int, width: int, height: int, px: int, py: int) -> Option<
    char,
> {
    let right = x + width - 1;
    let bottom = y + height - 1;
    if width < 2 || height < 2 {
        None
    } else if px == x && py == y {
        Some('┌')
    } else if px == right && py == y {
        Some('┐')
    } else if px == x && py == bottom {
        Some('└')
    } else if px == right && py == bottom {
        Some('┘')
    } else if (py == y || py == bottom) && x < px < right {
        Some('─')
    } else if (px == x || px == right) && y < py < bottom {
        Some('│')
    } else {
        None
    }
}

/// The cells of the outline of a rectangle in one colour.
pub open spec fn outline(x: int, y: int, width: int, height: int, color: Option<Color>) -> spec_fn(
    int,
    int,
) -> Option<Cell> {
    |px: int, py: int|
        match outline_glyph(x, y, width, height, px, py) {
            Some(glyph) => Some(Cell { glyph: glyph, color: color }),
            None => None,
        }
}

/// The part of an outline that is drawn first: the corners, the horizontal
/// edges left of column `across` and the vertical edges above line `down`.
spec fn outline_part(
    x: int,
    y: int,
    width: int,
    height: int,
    color: Option<Color>,
    across: int,
    down: int,
) -> spec_fn(int, int) -> Option<Cell> {
    |px: int, py: int|
        match outline_glyph(x, y, width, height, px, py) {
            Some(glyph) => if (glyph == '│' && py >= down) || (glyph == '─' && px >= across) {
                None
            } else {
                Some(Cell { glyph: glyph, color: color })
            },
            None => None,
        }
}

/// The cells of a text in one colour that starts at column `x` of line `y`.
pub open spec fn written(x: int, y: int, text: Seq<char>, color: Option<Color>) -> spec_fn(
    int,
    int,
) -> Option<Cell> {
    |px: int, py: int|
        if py == y && x <= px < x + text.len() {
            Some(Cell { glyph: text[px - x], color: color })
        } else {
            None
        }
}

/// Whether a cell at distance `dx`, `dy` from the centre lies on the ring
/// of radius `r`: within the radius, and beyond the radius less one.
pub open spec fn on_ring(dx: int, dy: int, r: int) -> bool {
    dx * dx + dy * dy <= r * r && dx * dx + dy * dy > (r - 1) * (r - 1)
}

/// Whether the cell at column `px` of line `py` lies on the ring of radius
/// `r` round the cell at column `cx` of line `cy`.
pub open spec fn ring_around(cx: int, cy: int, r: int, px: int, py: int) -> bool {
    on_ring(px - cx, py - cy, r)
}

/// A cell on a ring is no further than the radius from the centre, along
/// either axis.
proof fn ring_is_near(dx: int, dy: int, r: int)
    requires
        on_ring(dx, dy, r),
        r >= 0,
    ensures
        -r <= dx <= r,
        -r <= dy <= r,
{
    assert(dx * dx >= 0 && dy * dy >= 0) by (nonlinear_arith);
    assert(dx * dx <= r * r ==> -r <= dx <= r) by (nonlinear_arith)
        requires
            r >= 0,
    ;
    assert(dy * dy <= r * r ==> -r <= dy <= r) by (nonlinear_arith)
        requires
            r >= 0,
    ;
}

/// The place in the buffer of the cell at column `x` of line `y`.
pub open spec fn place(x: int, y: int, width: int) -> int {
    y * width + x
}

impl View for SvgCanvas {
    type V = CanvasView;

    closed spec fn view(&self) -> CanvasView {
        CanvasView {
            width: self.width,
            height: self.height,
            resolution: self.resolution,
            cells: Seq::new(
                self.height as nat,
                |y: int|
                    Seq::new(
                        self.width as nat,
                        |x: int| self.cells@[place(x, y, self.width as int)],
                    ),
            ),
        }
    }
}

/// The place of a cell in the buffer lies within the buffer, and the
/// buffer of a canvas of at most 65535 columns and lines has at most that
/// number squared of cells.
proof fn place_is_within(x: int, y: int, width: int, height: int)
    requires
        0 <= x < width,
        0 <= y < height,
    ensures
        0 <= y * width + x < width * height,
        width <= 0xffff && height <= 0xffff ==> width * height <= 0xffff * 0xffff,
{
    assert(y * width + x < width * height) by (nonlinear_arith)
        requires
            0 <= x < width,
            0 <= y < height,
    ;
    assert(0 <= y * width) by (nonlinear_arith)
        requires
            0 <= y,
            0 <= width,
    ;
    if width <= 0xffff && height <= 0xffff {
        assert(width * height <= 0xffff * 0xffff) by (nonlinear_arith)
            requires
                0 <= width <= 0xffff,
                0 <= height <= 0xffff,
        ;
    }
}

/// Two cells that differ in column or line differ in their place.
proof fn places_differ(x: int, y: int, px: int, py: int, width: int)
    requires
        0 <= x < width,
        0 <= px < width,
        0 <= y,
        0 <= py,
        x != px || y != py,
    ensures
        y * width + x != py * width + px,
{
    if y < py {
        assert(y * width + x < py * width + px) by (nonlinear_arith)
            requires
                0 <= x < width,
                0 <= px,
                y + 1 <= py,
        ;
    } else if py < y {
        assert(py * width + px < y * width + x) by (nonlinear_arith)
            requires
                0 <= px < width,
                0 <= x,
                py + 1 <= y,
        ;
    }
}

impl SvgCanvas {
    #[verifier::type_invariant]
    spec fn inv(self) -> bool {
        self.cells@.len() == self.width * self.height
    }

    /// A blank canvas of that size, in character-cell resolution.
    pub fn new(width: u16, height: u16) -> (r: Self)
        ensures
            r@ == (CanvasView {
                width: width,
                height: height,
                resolution: Resolution::CharCell,
                cells: Seq::new(height as nat, |y: int| Seq::new(width as nat, |x: int| blank())),
            }),
    {
        let mut cells: Vec<Cell> = Vec::new();
        assert(0 <= width * height <= 0xffff * 0xffff) by (nonlinear_arith)
            requires
                0 <= width <= 0xffff,
                0 <= height <= 0xffff,
        ;
        let total: u32 = (width as u32) * (height as u32);
        let mut i: u32 = 0;
        while i < total
            invariant
                0 <= i <= total,
                cells@.len() == i,
                forall|j: int| 0 <= j < i ==> #[trigger] cells@[j] == blank(),
            decreases total - i,
        {
            cells.push(Cell { glyph: ' ', color: None });
            i = i + 1;
        }
        let r = SvgCanvas { width, height, resolution: Resolution::CharCell, cells };
        proof {
            assert forall|y: int, x: int| 0 <= y < height && 0 <= x < width implies (
            #[trigger] r.cells@[place(x, y, width as int)]) == blank() by {
                place_is_within(x, y, width as int, height as int);
            }
            assert(r@.cells =~~= Seq::new(
                height as nat,
                |y: int| Seq::new(width as nat, |x: int| blank()),
            ));
        }
        r
    }

    /// The same canvas in another resolution.
    pub fn resolution(self, resolution: Resolution) -> (r: Self)
        ensures
            r@ == (CanvasView { resolution: resolution, ..self@ }),
    {
        proof {
            use_type_invariant(&self);
        }
        SvgCanvas { width: self.width, height: self.height, resolution, cells: self.cells }
    }

    /// The number of columns.
    pub fn width(&self) -> (r: u16)
        ensures
            r == self@.width,
            self@.well_formed(),
    {
        self.width
    }

    /// The number of lines.
    pub fn height(&self) -> (r: u16)
        ensures
            r == self@.height,
            self@.well_formed(),
    {
        self.height
    }

    /// The cell at column `x` of line `y`, if the canvas has one there.
    pub fn cell_at(&self, x: u16, y: u16) -> (r: Option<Cell>)
        ensures
            r == if self@.holds(x as int, y as int) {
                Some(self@.cells[y as int][x as int])
            } else {
                None
            },
    {
        proof {
            use_type_invariant(self);
        }
        if x < self.width && y < self.height {
            proof {
                place_is_within(x as int, y as int, self.width as int, self.height as int);
            }
            let place: usize = (y as usize) * (self.width as usize) + (x as usize);
            Some(self.cells[place])
        } else {
            None
        }
    }

    /// Puts a character and its colour into the cell at column `x` of line
    /// `y`. Outside of the canvas nothing is drawn.
    pub fn draw_char(&mut self, x: u16, y: u16, ch: char, color: Option<Color>)
        ensures
            final(self)@ == old(self)@.covered(
                |px: int, py: int| px == x && py == y,
                Cell { glyph: ch, color: color },
            ),
    {
        proof {
            use_type_invariant(&*self);
        }
        if x < self.width && y < self.height {
            proof {
                place_is_within(x as int, y as int, self.width as int, self.height as int);
            }
            let place: usize = (y as usize) * (self.width as usize) + (x as usize);
            self.cells[place] = Cell { glyph: ch, color };
        }
        proof {
            let target = old(self)@.covered(
                |px: int, py: int| px == x && py == y,
                Cell { glyph: ch, color: color },
            );
            assert forall|py: int, px: int|
                0 <= py < self.height && 0 <= px < self.width implies (
            #[trigger] self@.cells[py][px]) == target.cells[py][px] by {
                let w = self.width as int;
                place_is_within(px, py, w, self.height as int);
                assert(self@.cells[py][px] == self.cells@[place(px, py, w)]);
                assert(old(self)@.cells[py][px] == old(self).cells@[place(px, py, w)]);
                if px != x || py != y {
                    if x < self.width && y < self.height {
                        places_differ(x as int, y as int, px, py, w);
                    }
                } else {
                    assert(place(px, py, w) == (y as usize) * (self.width as usize) + (x as usize));
                }
            }
            assert(self@.cells =~~= target.cells);
        }
    }

    /// Draws a horizontal line of `length` cells to the right of column `x`
    /// on line `y`.
    pub fn draw_hline(&mut self, x: u16, y: u16, length: u16, color: Option<Color>)
        ensures
            final(self)@ == old(self)@.covered(
                |px: int, py: int| py == y && x <= px < x + length,
                Cell { glyph: '─', color: color },
            ),
    {
        let ghost cell = Cell { glyph: '─', color: color };
        let mut i: u16 = 0;
        proof {
            assert(self@.cells =~~= old(self)@.covered(
                |px: int, py: int| py == y && x <= px < x + 0,
                cell,
            ).cells);
        }
        while i < length
            invariant
                0 <= i <= length,
                cell == (Cell { glyph: '─', color: color }),
                self@ == old(self)@.covered(|px: int, py: int| py == y && x <= px < x + i, cell),
            decreases length - i,
        {
            let column: u32 = x as u32 + i as u32;
            if column <= 0xffff {
                self.draw_char(column as u16, y, '─', color);
            }
            i = i + 1;
            proof {
                assert(self@.cells =~~= old(self)@.covered(
                    |px: int, py: int| py == y && x <= px < x + i,
                    cell,
                ).cells);
            }
        }
    }

    /// Draws a vertical line of `length` cells down from line `y` in column
    /// `x`.
    pub fn draw_vline(&mut self, x: u16, y: u16, length: u16, color: Option<Color>)
        ensures
            final(self)@ == old(self)@.covered(
                |px: int, py: int| px == x && y <= py < y + length,
                Cell { glyph: '│', color: color },
            ),
    {
        let ghost cell = Cell { glyph: '│', color: color };
        let mut i: u16 = 0;
        proof {
            assert(self@.cells =~~= old(self)@.covered(
                |px: int, py: int| px == x && y <= py < y + 0,
                cell,
            ).cells);
        }
        while i < length
            invariant
                0 <= i <= length,
                cell == (Cell { glyph: '│', color: color }),
                self@ == old(self)@.covered(|px: int, py: int| px == x && y <= py < y + i, cell),
            decreases length - i,
        {
            let line: u32 = y as u32 + i as u32;
            if line <= 0xffff {
                self.draw_char(x, line as u16, '│', color);
            }
            i = i + 1;
            proof {
                assert(self@.cells =~~= old(self)@.covered(
                    |px: int, py: int| px == x && y <= py < y + i,
                    cell,
                ).cells);
            }
        }
    }

    /// Puts a cell at a place that may lie beyond the widest canvas.
    fn put(&mut self, x: i64, y: i64, ch: char, color: Option<Color>)
        ensures
            final(self)@ == old(self)@.covered(
                |px: int, py: int| px == x && py == y,
                Cell { glyph: ch, color: color },
            ),
    {
        if 0 <= x && x <= 0xffff && 0 <= y && y <= 0xffff {
            self.draw_char(x as u16, y as u16, ch, color);
        }
        proof {
            assert(self@.cells =~~= old(self)@.covered(
                |px: int, py: int| px == x && py == y,
                Cell { glyph: ch, color: color },
            ).cells);
        }
    }

    /// Draws the outline of a rectangle with box-drawing characters. The
    /// upper left corner is at column `x` of line `y`. A rectangle narrower
    /// or lower than two cells is not drawn.
    pub fn draw_rect(&mut self, x: u16, y: u16, width: u16, height: u16, color: Option<Color>)
        ensures
            final(self)@ == old(self)@.painted(
                outline(x as int, y as int, width as int, height as int, color),
            ),
    {
        let ghost gx = x as int;
        let ghost gy = y as int;
        let ghost gw = width as int;
        let ghost gh = height as int;
        if width >= 2 && height >= 2 {
            let left: i64 = x as i64;
            let top: i64 = y as i64;
            let right: i64 = left + width as i64 - 1;
            let bottom: i64 = top + height as i64 - 1;
            self.put(left, top, '┌', color);
            self.put(right, top, '┐', color);
            self.put(left, bottom, '└', color);
            self.put(right, bottom, '┘', color);
            proof {
                assert(self@.cells =~~= old(self)@.painted(
                    outline_part(gx, gy, gw, gh, color, left + 1, top + 1),
                ).cells);
            }
            let mut i: i64 = left + 1;
            while i < right
                invariant
                    left < i <= right,
                    left == x,
                    top == y,
                    right == x + width - 1,
                    bottom == y + height - 1,
                    width >= 2,
                    height >= 2,
                    gx == x && gy == y && gw == width && gh == height,
                    self@ == old(self)@.painted(
                        outline_part(gx, gy, gw, gh, color, i as int, top + 1),
                    ),
                decreases right - i,
            {
                self.put(i, top, '─', color);
                self.put(i, bottom, '─', color);
                i = i + 1;
                proof {
                    assert(self@.cells =~~= old(self)@.painted(
                        outline_part(gx, gy, gw, gh, color, i as int, top + 1),
                    ).cells);
                }
            }
            let mut j: i64 = top + 1;
            while j < bottom
                invariant
                    top < j <= bottom,
                    left == x,
                    top == y,
                    right == x + width - 1,
                    bottom == y + height - 1,
                    width >= 2,
                    height >= 2,
                    gx == x && gy == y && gw == width && gh == height,
                    self@ == old(self)@.painted(
                        outline_part(gx, gy, gw, gh, color, right as int, j as int),
                    ),
                decreases bottom - j,
            {
                self.put(left, j, '│', color);
                self.put(right, j, '│', color);
                j = j + 1;
                proof {
                    assert(self@.cells =~~= old(self)@.painted(
                        outline_part(gx, gy, gw, gh, color, right as int, j as int),
                    ).cells);
                }
            }
        }
        proof {
            assert(self@.cells =~~= old(self)@.painted(outline(gx, gy, gw, gh, color)).cells);
        }
    }

    /// Fills the rectangle of that size, whose upper left corner is at
    /// column `x` of line `y`, with one character.
    pub fn fill_rect(
        &mut self,
        x: u16,
        y: u16,
        width: u16,
        height: u16,
        fill_char: char,
        color: Option<Color>,
    )
        ensures
            final(self)@ == old(self)@.covered(
                |px: int, py: int| x <= px < x + width && y <= py < y + height,
                Cell { glyph: fill_char, color: color },
            ),
    {
        let ghost cell = Cell { glyph: fill_char, color: color };
        let mut dy: u16 = 0;
        proof {
            assert(self@.cells =~~= old(self)@.covered(
                |px: int, py: int| x <= px < x + width && y <= py < y + 0,
                cell,
            ).cells);
        }
        while dy < height
            invariant
                0 <= dy <= height,
                cell == (Cell { glyph: fill_char, color: color }),
                self@ == old(self)@.covered(
                    |px: int, py: int| x <= px < x + width && y <= py < y + dy,
                    cell,
                ),
            decreases height - dy,
        {
            let mut dx: u16 = 0;
            proof {
                assert(self@.cells =~~= old(self)@.covered(
                    |px: int, py: int|
                        x <= px < x + width && (y <= py < y + dy || (py == y + dy && px < x + 0)),
                    cell,
                ).cells);
            }
            while dx < width
                invariant
                    0 <= dx <= width,
                    0 <= dy < height,
                    cell == (Cell { glyph: fill_char, color: color }),
                    self@ == old(self)@.covered(
                        |px: int, py: int|
                            x <= px < x + width && (y <= py < y + dy || (py == y + dy && px < x
                                + dx)),
                        cell,
                    ),
                decreases width - dx,
            {
                self.put(x as i64 + dx as i64, y as i64 + dy as i64, fill_char, color);
                dx = dx + 1;
                proof {
                    assert(self@.cells =~~= old(self)@.covered(
                        |px: int, py: int|
                            x <= px < x + width && (y <= py < y + dy || (py == y + dy && px < x
                                + dx)),
                        cell,
                    ).cells);
                }
            }
            dy = dy + 1;
            proof {
                assert(self@.cells =~~= old(self)@.covered(
                    |px: int, py: int| x <= px < x + width && y <= py < y + dy,
                    cell,
                ).cells);
            }
        }
    }

    /// Draws a ring of radius `radius` round the cell at column `cx` of line
    /// `cy`: every cell within the radius of the centre and beyond the
    /// radius less one.
    pub fn draw_circle(&mut self, cx: u16, cy: u16, radius: u16, color: Option<Color>)
        ensures
            final(self)@ == old(self)@.covered(
                |px: int, py: int| ring_around(cx as int, cy as int, radius as int, px, py),
                Cell { glyph: '●', color: color },
            ),
    {
        let ghost cell = Cell { glyph: '●', color: color };
        let ghost gx = cx as int;
        let ghost gy = cy as int;
        let r: i64 = radius as i64;
        assert(0 <= r * r <= 0xffff * 0xffff && 0 <= (r - 1) * (r - 1) <= 0xffff * 0xffff)
            by (nonlinear_arith)
            requires
                0 <= r <= 0xffff,
        ;
        let outer: i64 = r * r;
        let inner: i64 = (r - 1) * (r - 1);
        let mut dy: i64 = -r;
        proof {
            assert forall|px: int, py: int| #[trigger]
                ring_around(gx, gy, r as int, px, py) implies -r <= px - gx <= r && -r <= py - gy
                <= r by {
                ring_is_near(px - gx, py - gy, r as int);
            }
            assert(self@.cells =~~= old(self)@.covered(
                |px: int, py: int| ring_around(gx, gy, r as int, px, py) && py - gy < dy,
                cell,
            ).cells);
        }
        while dy <= r
            invariant
                -r <= dy <= r + 1,
                r == radius,
                gx == cx,
                gy == cy,
                outer == r * r,
                inner == (r - 1) * (r - 1),
                cell == (Cell { glyph: '●', color: color }),
                forall|px: int, py: int| #[trigger]
                    ring_around(gx, gy, r as int, px, py) ==> -r <= px - gx <= r && -r <= py - gy
                        <= r,
                self@ == old(self)@.covered(
                    |px: int, py: int| ring_around(gx, gy, r as int, px, py) && py - gy < dy,
                    cell,
                ),
            decreases r + 1 - dy,
        {
            let mut dx: i64 = -r;
            proof {
                assert(self@.cells =~~= old(self)@.covered(
                    |px: int, py: int|
                        ring_around(gx, gy, r as int, px, py) && (py - gy < dy || (py - gy == dy
                            && px - gx < dx)),
                    cell,
                ).cells);
            }
            while dx <= r
                invariant
                    -r <= dx <= r + 1,
                    -r <= dy <= r,
                    r == radius,
                    gx == cx,
                    gy == cy,
                    outer == r * r,
                    inner == (r - 1) * (r - 1),
                    cell == (Cell { glyph: '●', color: color }),
                    forall|px: int, py: int| #[trigger]
                        ring_around(gx, gy, r as int, px, py) ==> -r <= px - gx <= r && -r <= py
                            - gy <= r,
                    self@ == old(self)@.covered(
                        |px: int, py: int|
                            ring_around(gx, gy, r as int, px, py) && (py - gy < dy || (py - gy
                                == dy && px - gx < dx)),
                        cell,
                    ),
                decreases r + 1 - dx,
            {
                assert(0 <= dx * dx <= 0xffff * 0xffff && 0 <= dy * dy <= 0xffff * 0xffff)
                    by (nonlinear_arith)
                    requires
                        -0xffff <= dx <= 0xffff,
                        -0xffff <= dy <= 0xffff,
                ;
                let distance: i64 = dx * dx + dy * dy;
                let ghost at = dx;
                if distance <= outer && distance > inner {
                    self.put(cx as i64 + dx, cy as i64 + dy, '●', color);
                }
                dx = dx + 1;
                proof {
                    assert forall|px: int, py: int| px - gx == at && py - gy == dy implies (
                    #[trigger] ring_around(gx, gy, r as int, px, py)) == (distance <= outer
                        && distance > inner) by {}
                    assert(self@.cells =~~= old(self)@.covered(
                        |px: int, py: int|
                            ring_around(gx, gy, r as int, px, py) && (py - gy < dy || (py - gy
                                == dy && px - gx < dx)),
                        cell,
                    ).cells);
                }
            }
            dy = dy + 1;
            proof {
                assert(self@.cells =~~= old(self)@.covered(
                    |px: int, py: int| ring_around(gx, gy, r as int, px, py) && py - gy < dy,
                    cell,
                ).cells);
            }
        }
        proof {
            assert(self@.cells =~~= old(self)@.covered(
                |px: int, py: int| ring_around(cx as int, cy as int, radius as int, px, py),
                cell,
            ).cells);
        }
    }

    /// Writes a text to the right of column `x` on line `y`, one character
    /// per cell.
    pub fn draw_text(&mut self, x: u16, y: u16, text: &str, color: Option<Color>)
        ensures
            final(self)@ == old(self)@.painted(written(x as int, y as int, text@, color)),
    {
        let length: usize = text.unicode_len();
        let mut i: usize = 0;
        proof {
            assert(self@.cells =~~= old(self)@.painted(
                written(x as int, y as int, text@.take(0), color),
            ).cells);
        }
        while i < length
            invariant
                0 <= i <= length,
                length == text@.len(),
                self@ == old(self)@.painted(
                    written(x as int, y as int, text@.take(i as int), color),
                ),
            decreases length - i,
        {
            let ch: char = text.get_char(i);
            if i <= 0xffff {
                self.put(x as i64 + i as i64, y as i64, ch, color);
            }
            i = i + 1;
            proof {
                assert(self@.cells =~~= old(self)@.painted(
                    written(x as int, y as int, text@.take(i as int), color),
                ).cells);
            }
        }
        proof {
            assert(text@.take(length as int) =~= text@);
        }
    }

    /// Blanks every cell and drops its colour.
    pub fn clear(&mut self)
        ensures
            final(self)@ == old(self)@.covered(|px: int, py: int| true, blank()),
    {
        proof {
            use_type_invariant(&*self);
        }
        let total: usize = self.cells.len();
        let mut i: usize = 0;
        while i < total
            invariant
                0 <= i <= total,
                total == self.cells@.len(),
                total == self.width * self.height,
                self.width == old(self).width,
                self.height == old(self).height,
                self.resolution == old(self).resolution,
                forall|j: int| 0 <= j < i ==> #[trigger] self.cells@[j] == blank(),
            decreases total - i,
        {
            self.cells[i] = Cell { glyph: ' ', color: None };
            i = i + 1;
        }
        proof {
            use_type_invariant(&*self);
            assert forall|py: int, px: int|
                0 <= py < self.height && 0 <= px < self.width implies (
            #[trigger] self@.cells[py][px]) == blank() by {
                place_is_within(px, py, self.width as int, self.height as int);
                assert(self@.cells[py][px] == self.cells@[place(px, py, self.width as int)]);
            }
            assert(self@.cells =~~= old(self)@.covered(|px: int, py: int| true, blank()).cells);
        }
    }
}

} // verus!
