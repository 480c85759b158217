//! Sizes of the terminal grid and of the window, and the decision to resize the
//! terminal when the window's grid changes.
use vstd::prelude::*;

verus! {

/// Lines of scrollback plus screen that the terminal keeps.
pub const DEFAULT_TOTAL_LINES: usize = 4000;

/// Columns of the terminal before the window first reports its size.
pub const DEFAULT_WIDTH: u16 = 80;

/// Screen lines of the terminal before the window first reports its size.
pub const DEFAULT_HEIGHT: u16 = 32;

/// The size of the terminal's text area as the pty is told it: lines and
/// columns, and the size of one cell in pixels.
#[derive(Clone, Copy, Debug, PartialEq, Eq, Structural)]
pub struct WindowDims {
    pub num_lines: u16,
    pub num_cols: u16,
    pub cell_width: u16,
    pub cell_height: u16,
}

/// The dimensions of the terminal's grid: all lines kept, the lines on screen,
/// and the columns.
#[derive(Clone, Copy, Debug, PartialEq, Eq, Structural)]
pub struct Size {
    pub total_lines: usize,
    pub screen_lines: usize,
    pub columns: usize,
}

impl Size {
    /// All lines the terminal keeps, scrollback included.
    pub fn total_lines(&self) -> (n: usize)
        ensures
            n == self.total_lines,
    {
        self.total_lines
    }

    /// The lines on screen.
    pub fn screen_lines(&self) -> (n: usize)
        ensures
            n == self.screen_lines,
    {
        self.screen_lines
    }

    /// The columns of the grid.
    pub fn columns(&self) -> (n: usize)
        ensures
            n == self.columns,
    {
        self.columns
    }
}

/// The grid of character cells that the window currently shows.
#[derive(Clone, Copy, Debug, PartialEq, Eq, Structural)]
pub struct GridSize {
    pub cols: u16,
    pub rows: u16,
}

/// What to tell the pty and the terminal when the window's grid changes.
#[derive(Clone, Copy, Debug, PartialEq, Eq, Structural)]
pub struct ResizePlan {
    /// The new size of the text area, for the pty.
    pub window: WindowDims,
    /// The new dimensions of the terminal's grid.
    pub dimensions: Size,
}

/// The grid dimensions of a terminal that shows `rows` lines of `cols` columns.
pub open spec fn grid_dimensions(cols: u16, rows: u16) -> Size {
    Size { total_lines: DEFAULT_TOTAL_LINES, screen_lines: rows as usize, columns: cols as usize }
}

/// The resize that moving from `current` to a grid of `next_cols` by
/// `next_rows` asks for, if any: none when the grid keeps its size; otherwise
/// the new text area (with the given cell size in pixels) and the new grid
/// dimensions.
pub open spec fn resize_for(
    current: GridSize,
    next_cols: u16,
    next_rows: u16,
    cell_width: u16,
    cell_height: u16,
) -> Option<ResizePlan> {
    if next_cols != current.cols || next_rows != current.rows {
        Some(
            ResizePlan {
                window: WindowDims {
                    num_cols: next_cols,
                    num_lines: next_rows,
                    cell_width,
                    cell_height,
                },
                dimensions: grid_dimensions(next_cols, next_rows),
            },
        )
    } else {
        None
    }
}

impl GridSize {
    /// The grid the window shows before it first reports its size.
    pub fn initial() -> (g: GridSize)
        ensures
            g == (GridSize { cols: DEFAULT_WIDTH, rows: DEFAULT_HEIGHT }),
    {
        GridSize { cols: DEFAULT_WIDTH, rows: DEFAULT_HEIGHT }
    }

    /// The window now fits a grid of `next_cols` by `next_rows`: records that
    /// grid and returns the resize to perform, if the grid changed (see
    /// `resize_for`).
    pub fn plan_resize(&mut self, next_cols: u16, next_rows: u16, cell_width: u16, cell_height: u16)
        -> (plan: Option<ResizePlan>)
        ensures
            plan == resize_for(*old(self), next_cols, next_rows, cell_width, cell_height),
            *final(self) == (GridSize { cols: next_cols, rows: next_rows }),
    {
        if next_cols != self.cols || next_rows != self.rows {
            let plan = ResizePlan {
                window: WindowDims {
                    num_cols: next_cols,
                    num_lines: next_rows,
                    cell_width,
                    cell_height,
                },
                dimensions: Size {
                    total_lines: DEFAULT_TOTAL_LINES,
                    screen_lines: next_rows as usize,
                    columns: next_cols as usize,
                },
            };
            self.cols = next_cols;
            self.rows = next_rows;
            Some(plan)
        } else {
            None
        }
    }
}

/// Resizing is idempotent: once the window's grid has been recorded, reporting
/// the same grid again asks for no resize, whatever the cell size.
pub proof fn lemma_resize_idempotent(
    next_cols: u16,
    next_rows: u16,
    later_width: u16,
    later_height: u16,
)
    ensures
        resize_for(
            GridSize { cols: next_cols, rows: next_rows },
            next_cols,
            next_rows,
            later_width,
            later_height,
        ) is None,
{
}

/// A resize is asked for exactly when the grid changes, and it sizes both the
/// text area and the terminal's grid to the new grid, keeping the scrollback
/// length.
pub proof fn lemma_resize_matches_grid(
    current: GridSize,
    next_cols: u16,
    next_rows: u16,
    cell_width: u16,
    cell_height: u16,
)
    ensures
        resize_for(current, next_cols, next_rows, cell_width, cell_height) is Some <==> current
            != (GridSize { cols: next_cols, rows: next_rows }),
        resize_for(current, next_cols, next_rows, cell_width, cell_height) matches Some(p) ==> {
            &&& p.window.num_cols == next_cols
            &&& p.window.num_lines == next_rows
            &&& p.dimensions.columns == p.window.num_cols
            &&& p.dimensions.screen_lines == p.window.num_lines
            &&& p.dimensions.total_lines == DEFAULT_TOTAL_LINES
        },
{
}

} // verus!
