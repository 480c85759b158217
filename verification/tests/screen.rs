use showroom::color::{NamedColor, Palette, Rgb, Rgba, TermColor, COLOR_COUNT};
use showroom::geometry::{GridSize, ResizePlan, Size, WindowDims};
use showroom::screen::{render_terminal, viewport_line, Cell, LayoutPiece};

fn palette() -> Palette {
    let mut entries = vec![None; COLOR_COUNT];
    entries[256] = Some(Rgb { r: 200, g: 200, b: 200 });
    Palette::from_entries(entries).unwrap()
}

fn cell(c: char) -> Cell {
    Cell { c, fg: TermColor::Named(NamedColor::Foreground), bg: TermColor::Named(NamedColor::Background) }
}

#[test]
fn rows_are_separated_by_line_breaks() {
    let rows = vec![vec![cell('a'), cell('b')], vec![cell('c'), cell('d')]];
    let pieces = render_terminal(&rows, &palette());
    let fg = Rgba { r: 200, g: 200, b: 200, a: 255 };
    let bg = Rgba { r: 30, g: 30, b: 30, a: 255 };
    assert_eq!(
        pieces,
        vec![
            LayoutPiece::Glyph { c: 'a', fg, bg },
            LayoutPiece::Glyph { c: 'b', fg, bg },
            LayoutPiece::LineBreak,
            LayoutPiece::Glyph { c: 'c', fg, bg },
            LayoutPiece::Glyph { c: 'd', fg, bg },
        ]
    );
}

#[test]
fn layout_length_is_cells_plus_breaks() {
    let rows = vec![vec![cell('x'); 80]; 32];
    let pieces = render_terminal(&rows, &palette());
    assert_eq!(pieces.len(), 80 * 32 + 31);
    assert_eq!(pieces.iter().filter(|p| **p == LayoutPiece::LineBreak).count(), 31);
    assert!(render_terminal(&Vec::new(), &palette()).is_empty());
}

#[test]
fn cell_colors_come_from_the_palette() {
    let c = Cell { c: 'z', fg: TermColor::Spec(Rgb { r: 1, g: 2, b: 3 }), bg: TermColor::Indexed(42) };
    let pieces = render_terminal(&vec![vec![c]], &palette());
    assert_eq!(
        pieces,
        vec![LayoutPiece::Glyph {
            c: 'z',
            fg: Rgba { r: 1, g: 2, b: 3, a: 255 },
            bg: Rgba { r: 255, g: 0, b: 255, a: 255 },
        }]
    );
}

#[test]
fn viewport_lines_follow_the_scroll_offset() {
    assert_eq!(viewport_line(0, 0), 0);
    assert_eq!(viewport_line(5, 2), 3);
    assert_eq!(viewport_line(3, 5), -2);
}

#[test]
fn resize_only_when_the_grid_changes() {
    let mut grid = GridSize::initial();
    assert_eq!(grid, GridSize { cols: 80, rows: 32 });
    assert_eq!(grid.plan_resize(80, 32, 9, 18), None);
    let plan = grid.plan_resize(100, 40, 9, 18);
    assert_eq!(
        plan,
        Some(ResizePlan {
            window: WindowDims { num_lines: 40, num_cols: 100, cell_width: 9, cell_height: 18 },
            dimensions: Size { total_lines: 4000, screen_lines: 40, columns: 100 },
        })
    );
    assert_eq!(grid, GridSize { cols: 100, rows: 40 });
    assert_eq!(grid.plan_resize(100, 40, 10, 20), None);
    assert!(grid.plan_resize(100, 41, 10, 20).is_some());
    assert_eq!(grid, GridSize { cols: 100, rows: 41 });
}

#[test]
fn size_getters() {
    let s = Size { total_lines: 4000, screen_lines: 24, columns: 80 };
    assert_eq!(s.total_lines(), 4000);
    assert_eq!(s.screen_lines(), 24);
    assert_eq!(s.columns(), 80);
}
