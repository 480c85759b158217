//! The layout of the terminal's visible screen as colored text: one glyph per
//! cell, row after row, with a line break between rows.
use vstd::prelude::*;
use crate::color::{alacritty_to_egui_color, screen_color, Palette, Rgb, Rgba, TermColor};

verus! {

/// A cell of the terminal's grid: its character and its colors.
#[derive(Clone, Copy, Debug, PartialEq, Eq, Structural)]
pub struct Cell {
    pub c: char,
    pub fg: TermColor,
    pub bg: TermColor,
}

/// A piece of the laid-out screen.
#[derive(Clone, Copy, Debug, PartialEq, Eq, Structural)]
pub enum LayoutPiece {
    /// A character painted in the foreground color on the background color.
    Glyph { c: char, fg: Rgba, bg: Rgba },
    /// The end of a row, laid out with the default format.
    LineBreak,
}

/// The glyph that shows a cell.
pub open spec fn glyph_of(cell: Cell, palette: Seq<Option<Rgb>>) -> LayoutPiece {
    LayoutPiece::Glyph {
        c: cell.c,
        fg: screen_color(cell.fg, palette),
        bg: screen_color(cell.bg, palette),
    }
}

/// The glyphs of a row, in column order.
pub open spec fn row_layout(row: Seq<Cell>, palette: Seq<Option<Rgb>>) -> Seq<LayoutPiece> {
    row.map_values(|cell: Cell| glyph_of(cell, palette))
}

/// The layout of the first `k` rows of the screen `rows`: each row's glyphs,
/// followed by a line break unless it is the screen's last row.
pub open spec fn layout_upto(rows: Seq<Vec<Cell>>, k: nat, palette: Seq<Option<Rgb>>) -> Seq<
    LayoutPiece,
>
    decreases k,
{
    if k == 0 {
        Seq::empty()
    } else {
        layout_upto(rows, (k - 1) as nat, palette) + row_layout(rows[k - 1]@, palette) + if k
            < rows.len() {
            seq![LayoutPiece::LineBreak]
        } else {
            Seq::empty()
        }
    }
}

/// The layout of the whole screen `rows`.
pub open spec fn screen_layout(rows: Seq<Vec<Cell>>, palette: Seq<Option<Rgb>>) -> Seq<LayoutPiece> {
    layout_upto(rows, rows.len(), palette)
}

/// Lays the visible screen out as text: each cell of each row as a glyph in
/// its screen colors (see `screen_color`), with a line break between rows.
pub fn render_terminal(rows: &Vec<Vec<Cell>>, colors: &Palette) -> (pieces: Vec<LayoutPiece>)
    ensures
        pieces@ == screen_layout(rows@, colors@),
{
    let mut pieces: Vec<LayoutPiece> = Vec::new();
    let screen_lines = rows.len();
    let mut row_i: usize = 0;
    while row_i < screen_lines
        invariant
            row_i <= screen_lines,
            screen_lines == rows@.len(),
            pieces@ == layout_upto(rows@, row_i as nat, colors@),
        decreases screen_lines - row_i,
    {
        let line = &rows[row_i];
        let columns = line.len();
        let ghost before = pieces@;
        let mut col_i: usize = 0;
        while col_i < columns
            invariant
                col_i <= columns,
                columns == line@.len(),
                line == rows@[row_i as int],
                pieces@ == before + row_layout(line@.take(col_i as int), colors@),
            decreases columns - col_i,
        {
            let cell = line[col_i];
            let bg = alacritty_to_egui_color(cell.bg, colors);
            let fg = alacritty_to_egui_color(cell.fg, colors);
            pieces.push(LayoutPiece::Glyph { c: cell.c, fg, bg });
            proof {
                assert(line@.take(col_i + 1) == line@.take(col_i as int).push(cell));
                assert(row_layout(line@.take(col_i + 1), colors@) =~= row_layout(
                    line@.take(col_i as int),
                    colors@,
                ).push(glyph_of(cell, colors@)));
            }
            col_i = col_i + 1;
        }
        assert(line@.take(columns as int) =~= line@);
        if row_i != screen_lines - 1 {
            pieces.push(LayoutPiece::LineBreak);
        }
        row_i = row_i + 1;
        assert(pieces@ =~= layout_upto(rows@, row_i as nat, colors@));
    }
    pieces
}

/// The number of cells in the first `k` rows of `rows`.
pub open spec fn cells_upto(rows: Seq<Vec<Cell>>, k: nat) -> nat
    decreases k,
{
    if k == 0 {
        0
    } else {
        cells_upto(rows, (k - 1) as nat) + rows[k - 1]@.len()
    }
}

/// A screen of `n > 0` rows is laid out as one glyph per cell and `n - 1` line
/// breaks; an empty screen as nothing.
pub proof fn lemma_layout_len(rows: Seq<Vec<Cell>>, palette: Seq<Option<Rgb>>)
    ensures
        rows.len() == 0 ==> screen_layout(rows, palette).len() == 0,
        rows.len() > 0 ==> screen_layout(rows, palette).len() == cells_upto(rows, rows.len())
            + rows.len() - 1,
{
    lemma_layout_upto_len(rows, rows.len(), palette);
}

proof fn lemma_layout_upto_len(rows: Seq<Vec<Cell>>, k: nat, palette: Seq<Option<Rgb>>)
    requires
        k <= rows.len(),
    ensures
        k == 0 ==> layout_upto(rows, k, palette).len() == 0,
        0 < k < rows.len() ==> layout_upto(rows, k, palette).len() == cells_upto(rows, k) + k,
        0 < k == rows.len() ==> layout_upto(rows, k, palette).len() == cells_upto(rows, k) + k
            - 1,
    decreases k,
{
    if k > 0 {
        lemma_layout_upto_len(rows, (k - 1) as nat, palette);
    }
}

/// Counting cells over more rows never gives fewer cells.
proof fn lemma_cells_upto_monotone(rows: Seq<Vec<Cell>>, a: nat, b: nat)
    requires
        a <= b <= rows.len(),
    ensures
        cells_upto(rows, a) <= cells_upto(rows, b),
    decreases b - a,
{
    if a < b {
        lemma_cells_upto_monotone(rows, a, (b - 1) as nat);
    }
}

/// Where each piece of the first `k` rows lands (see `lemma_layout_positions`).
proof fn lemma_layout_upto_positions(rows: Seq<Vec<Cell>>, k: nat, palette: Seq<Option<Rgb>>)
    requires
        k <= rows.len(),
    ensures
        forall|r: int, j: int|
            #![trigger layout_upto(rows, k, palette)[cells_upto(rows, r as nat) + r + j]]
            0 <= r < k && 0 <= j < rows[r]@.len() ==> layout_upto(rows, k, palette)[cells_upto(
                rows,
                r as nat,
            ) + r + j] == (LayoutPiece::Glyph {
                c: rows[r]@[j].c,
                fg: screen_color(rows[r]@[j].fg, palette),
                bg: screen_color(rows[r]@[j].bg, palette),
            }),
        forall|r: int|
            #![trigger layout_upto(rows, k, palette)[cells_upto(rows, (r + 1) as nat) + r]]
            0 <= r && r + 1 < k ==> layout_upto(rows, k, palette)[cells_upto(rows, (r + 1) as nat)
                + r] == LayoutPiece::LineBreak,
    decreases k,
{
    if k > 0 {
        let km = (k - 1) as nat;
        lemma_layout_upto_positions(rows, km, palette);
        lemma_layout_upto_len(rows, km, palette);
        let prefix = layout_upto(rows, km, palette);
        let row = row_layout(rows[km as int]@, palette);
        let sep: Seq<LayoutPiece> = if k < rows.len() {
            seq![LayoutPiece::LineBreak]
        } else {
            Seq::empty()
        };
        let whole = layout_upto(rows, k, palette);
        assert(whole == prefix + row + sep);
        assert(prefix.len() == cells_upto(rows, km) + km);
        assert forall|r: int, j: int|
            0 <= r < k && 0 <= j < rows[r]@.len() implies #[trigger] whole[cells_upto(
                rows,
                r as nat,
            ) + r + j] == (LayoutPiece::Glyph {
                c: rows[r]@[j].c,
                fg: screen_color(rows[r]@[j].fg, palette),
                bg: screen_color(rows[r]@[j].bg, palette),
            }) by {
            let i = cells_upto(rows, r as nat) + r + j;
            if r < km {
                lemma_cells_upto_monotone(rows, (r + 1) as nat, km);
                assert(cells_upto(rows, (r + 1) as nat) == cells_upto(rows, r as nat) + rows[r]@.len());
                assert(i < prefix.len());
                assert(whole[i] == prefix[i]);
                assert(prefix[cells_upto(rows, r as nat) + r + j] == (LayoutPiece::Glyph {
                    c: rows[r]@[j].c,
                    fg: screen_color(rows[r]@[j].fg, palette),
                    bg: screen_color(rows[r]@[j].bg, palette),
                }));
            } else {
                assert(r == km);
                assert(i == prefix.len() + j);
                assert(whole[i] == row[j]);
            }
        }
        assert forall|r: int|
            0 <= r && r + 1 < k implies #[trigger] whole[cells_upto(rows, (r + 1) as nat) + r]
            == LayoutPiece::LineBreak by {
            let i = cells_upto(rows, (r + 1) as nat) + r;
            if r + 1 < km {
                lemma_cells_upto_monotone(rows, (r + 2) as nat, km);
                assert(i < prefix.len());
                assert(whole[i] == prefix[i]);
                assert(prefix[cells_upto(rows, (r + 1) as nat) + r] == LayoutPiece::LineBreak);
            } else {
                assert(r + 1 == km);
                let km2 = (km - 1) as nat;
                let inner = layout_upto(rows, km2, palette) + row_layout(rows[km2 as int]@, palette);
                assert(prefix == inner + seq![LayoutPiece::LineBreak]);
                lemma_layout_upto_len(rows, km2, palette);
                assert(i == prefix.len() - 1);
                assert(whole[i] == prefix[i]);
            }
        }
    }
}

/// Each glyph of the layout shows its own cell: the glyph of row `r`, column
/// `j` sits after the cells of the rows above and their `r` line breaks, and it
/// carries that cell's character, foreground and background; each row except
/// the last is followed by a line break.
pub proof fn lemma_layout_positions(rows: Seq<Vec<Cell>>, palette: Seq<Option<Rgb>>)
    ensures
        forall|r: int, j: int|
            #![trigger screen_layout(rows, palette)[cells_upto(rows, r as nat) + r + j]]
            0 <= r < rows.len() && 0 <= j < rows[r]@.len() ==> screen_layout(rows, palette)[
                cells_upto(rows, r as nat) + r + j] == (LayoutPiece::Glyph {
                c: rows[r]@[j].c,
                fg: screen_color(rows[r]@[j].fg, palette),
                bg: screen_color(rows[r]@[j].bg, palette),
            }),
        forall|r: int|
            #![trigger screen_layout(rows, palette)[cells_upto(rows, (r + 1) as nat) + r]]
            0 <= r && r + 1 < rows.len() ==> screen_layout(rows, palette)[cells_upto(
                rows,
                (r + 1) as nat,
            ) + r] == LayoutPiece::LineBreak,
{
    lemma_layout_upto_positions(rows, rows.len(), palette);
}

/// The grid line shown in screen row `row` when the view is scrolled back by
/// `display_offset` lines: lines above the screen have negative numbers.
pub fn viewport_line(row: usize, display_offset: usize) -> (line: i32)
    requires
        row <= i32::MAX,
        display_offset <= i32::MAX,
    ensures
        line == row - display_offset,
{
    row as i32 - display_offset as i32
}

} // verus!
