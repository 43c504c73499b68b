use ratatui::style::Color;
use ruensh::canvas::{Cell, SvgCanvas};
use ruensh::scheme::Resolution;

fn glyph(canvas: &SvgCanvas, x: u16, y: u16) -> char {
    canvas.cell_at(x, y).unwrap().glyph
}

fn drawn(canvas: &SvgCanvas) -> Vec<(u16, u16, char)> {
    let mut cells = Vec::new();
    for y in 0..canvas.height() {
        for x in 0..canvas.width() {
            let g = glyph(canvas, x, y);
            if g != ' ' {
                cells.push((x, y, g));
            }
        }
    }
    cells
}

#[test]
fn test_canvas_creation() {
    let canvas = SvgCanvas::new(80, 24);
    assert_eq!(canvas.width(), 80);
    assert_eq!(canvas.height(), 24);
}

#[test]
fn test_draw_char() {
    let mut canvas = SvgCanvas::new(10, 10);
    canvas.draw_char(5, 5, 'X', None);
    assert_eq!(glyph(&canvas, 5, 5), 'X');
}

#[test]
fn test_draw_rect() {
    let mut canvas = SvgCanvas::new(20, 10);
    canvas.draw_rect(2, 2, 10, 5, None);
    assert_eq!(glyph(&canvas, 2, 2), '┌');
    assert_eq!(glyph(&canvas, 11, 2), '┐');
    assert_eq!(glyph(&canvas, 2, 6), '└');
    assert_eq!(glyph(&canvas, 11, 6), '┘');
}

#[test]
fn a_new_canvas_is_blank() {
    let canvas = SvgCanvas::new(4, 3);
    for y in 0..3 {
        for x in 0..4 {
            assert_eq!(canvas.cell_at(x, y), Some(Cell { glyph: ' ', color: None }));
        }
    }
    assert_eq!(canvas.cell_at(4, 0), None);
    assert_eq!(canvas.cell_at(0, 3), None);
    let empty = SvgCanvas::new(0, 0).resolution(Resolution::Braille);
    assert_eq!(empty.cell_at(0, 0), None);
    assert_eq!(empty.width(), 0);
}

#[test]
fn drawing_outside_the_canvas_has_no_effect() {
    let mut canvas = SvgCanvas::new(3, 3);
    canvas.draw_char(3, 0, 'X', None);
    canvas.draw_char(0, 3, 'X', None);
    canvas.draw_char(u16::MAX, u16::MAX, 'X', None);
    assert!(drawn(&canvas).is_empty());
}

#[test]
fn a_cell_keeps_its_colour() {
    let mut canvas = SvgCanvas::new(3, 3);
    canvas.draw_char(1, 2, 'Q', Some(Color::Red));
    assert_eq!(canvas.cell_at(1, 2), Some(Cell { glyph: 'Q', color: Some(Color::Red) }));
    assert_eq!(drawn(&canvas), vec![(1, 2, 'Q')]);
    canvas.draw_char(1, 2, 'R', None);
    assert_eq!(canvas.cell_at(1, 2), Some(Cell { glyph: 'R', color: None }));
}

#[test]
fn lines_are_cut_off_at_the_edge() {
    let mut canvas = SvgCanvas::new(5, 4);
    canvas.draw_hline(3, 1, 10, None);
    canvas.draw_vline(0, 2, 10, Some(Color::Blue));
    assert_eq!(drawn(&canvas), vec![(3, 1, '─'), (4, 1, '─'), (0, 2, '│'), (0, 3, '│')]);
    assert_eq!(canvas.cell_at(0, 3).unwrap().color, Some(Color::Blue));
    canvas.draw_hline(u16::MAX, 0, u16::MAX, None);
    canvas.draw_vline(0, u16::MAX, u16::MAX, None);
    canvas.draw_hline(0, 0, 0, None);
    assert_eq!(drawn(&canvas).len(), 4);
}

#[test]
fn the_outline_of_a_rectangle() {
    let mut canvas = SvgCanvas::new(6, 5);
    canvas.draw_rect(1, 1, 4, 3, None);
    assert_eq!(
        drawn(&canvas),
        vec![
            (1, 1, '┌'),
            (2, 1, '─'),
            (3, 1, '─'),
            (4, 1, '┐'),
            (1, 2, '│'),
            (4, 2, '│'),
            (1, 3, '└'),
            (2, 3, '─'),
            (3, 3, '─'),
            (4, 3, '┘'),
        ]
    );
}

#[test]
fn the_smallest_rectangle_is_four_corners() {
    let mut canvas = SvgCanvas::new(4, 4);
    canvas.draw_rect(1, 1, 2, 2, None);
    assert_eq!(drawn(&canvas), vec![(1, 1, '┌'), (2, 1, '┐'), (1, 2, '└'), (2, 2, '┘')]);
}

#[test]
fn a_rectangle_without_room_is_not_drawn() {
    let mut canvas = SvgCanvas::new(4, 4);
    canvas.draw_rect(0, 0, 1, 4, None);
    canvas.draw_rect(0, 0, 4, 1, None);
    canvas.draw_rect(0, 0, 0, 0, None);
    assert!(drawn(&canvas).is_empty());
}

#[test]
fn a_rectangle_that_leaves_the_canvas_is_cut_off() {
    let mut canvas = SvgCanvas::new(3, 3);
    canvas.draw_rect(1, 1, 5, 5, None);
    assert_eq!(
        drawn(&canvas),
        vec![(1, 1, '┌'), (2, 1, '─'), (1, 2, '│')]
    );
    canvas.draw_rect(u16::MAX, u16::MAX, u16::MAX, u16::MAX, None);
    assert_eq!(drawn(&canvas).len(), 3);
}

#[test]
fn a_filled_rectangle() {
    let mut canvas = SvgCanvas::new(4, 4);
    canvas.fill_rect(1, 2, 2, 5, '#', Some(Color::Green));
    assert_eq!(drawn(&canvas), vec![(1, 2, '#'), (2, 2, '#'), (1, 3, '#'), (2, 3, '#')]);
    assert_eq!(canvas.cell_at(2, 3).unwrap().color, Some(Color::Green));
    canvas.fill_rect(0, 0, 0, 4, '#', None);
    canvas.fill_rect(0, 0, 4, 0, '#', None);
    assert_eq!(drawn(&canvas).len(), 4);
}

#[test]
fn rings_of_small_radius() {
    let mut canvas = SvgCanvas::new(7, 7);
    canvas.draw_circle(3, 3, 0, None);
    assert!(drawn(&canvas).is_empty());
    canvas.draw_circle(3, 3, 1, None);
    assert_eq!(drawn(&canvas), vec![(3, 2, '●'), (2, 3, '●'), (4, 3, '●'), (3, 4, '●')]);
    canvas.clear();
    canvas.draw_circle(3, 3, 2, None);
    assert_eq!(
        drawn(&canvas),
        vec![
            (3, 1, '●'),
            (2, 2, '●'),
            (4, 2, '●'),
            (1, 3, '●'),
            (5, 3, '●'),
            (2, 4, '●'),
            (4, 4, '●'),
            (3, 5, '●'),
        ]
    );
}

#[test]
fn a_ring_near_the_corner_is_cut_off() {
    let mut canvas = SvgCanvas::new(3, 3);
    canvas.draw_circle(0, 0, 1, None);
    assert_eq!(drawn(&canvas), vec![(1, 0, '●'), (0, 1, '●')]);
}

#[test]
fn text_goes_one_character_per_cell() {
    let mut canvas = SvgCanvas::new(6, 2);
    canvas.draw_text(1, 0, "héllo", Some(Color::Yellow));
    assert_eq!(
        drawn(&canvas),
        vec![(1, 0, 'h'), (2, 0, 'é'), (3, 0, 'l'), (4, 0, 'l'), (5, 0, 'o')]
    );
    canvas.draw_text(4, 1, "wide", None);
    assert_eq!(glyph(&canvas, 4, 1), 'w');
    assert_eq!(glyph(&canvas, 5, 1), 'i');
    canvas.draw_text(0, 5, "lost", None);
    canvas.draw_text(0, 0, "", None);
    assert_eq!(drawn(&canvas).len(), 7);
}

#[test]
fn clear_blanks_every_cell() {
    let mut canvas = SvgCanvas::new(4, 4).resolution(Resolution::Block);
    canvas.fill_rect(0, 0, 4, 4, '#', Some(Color::Red));
    assert_eq!(drawn(&canvas).len(), 16);
    canvas.clear();
    assert!(drawn(&canvas).is_empty());
    assert_eq!(canvas.cell_at(2, 2), Some(Cell { glyph: ' ', color: None }));
    assert_eq!(canvas.width(), 4);
    assert_eq!(canvas.height(), 4);
}
