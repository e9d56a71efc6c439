//! Screen geometry: fixed panel metrics and the result-table columns, which
//! are laid out right to left from the right border.

use vstd::prelude::*;

verus! {

/// Blank columns left and right of the frame.
pub const MARGIN_X: u16 = 1;
/// Blank rows above and below the frame.
pub const MARGIN_Y: u16 = 1;
pub const LEFT_PANEL_WIDTH: u16 = 22;
/// Column of the results panel, relative to the left margin.
pub const RESULTS_X_OFFSET: u16 = 23;
/// Width of the text inside a filter box.
pub const FILTER_BOX_CONTENT_WIDTH: usize = 17;
pub const STATUS_BAR_LINES: u16 = 3;
pub const HEADER_HEIGHT: u16 = 3;

pub const SOURCE_WIDTH: usize = 10;
pub const SEEDERS_WIDTH: usize = 5;
pub const SIZE_WIDTH: usize = 12;
/// Cells between two columns (` │ `).
pub const GUTTER: usize = 3;
/// Cells from the panel edge to the title: border, scroll mark, checkbox and
/// a gutter.
pub const TITLE_INDENT: usize = 11;

pub open spec fn sat_sub(a: int, b: int) -> int {
    if a >= b { a - b } else { 0 }
}

/// Column positions of the result table for one terminal size.
#[derive(Clone, Copy, Debug)]
pub struct LayoutCache {
    pub title_width: usize,
    pub size_column: u16,
    pub seeds_column: u16,
    pub source_column: u16,
    pub separator_column: u16,
    pub right_border_column: usize,
    pub terminal_width: u16,
    pub terminal_height: u16,
}

pub open spec fn right_border_for(width: u16) -> int {
    sat_sub(width as int, MARGIN_X as int + 1)
}

pub open spec fn source_start_for(width: u16) -> int {
    sat_sub(right_border_for(width), SOURCE_WIDTH as int)
}

pub open spec fn seeds_start_for(width: u16) -> int {
    sat_sub(sat_sub(source_start_for(width), GUTTER as int), SEEDERS_WIDTH as int)
}

pub open spec fn size_start_for(width: u16) -> int {
    sat_sub(sat_sub(seeds_start_for(width), GUTTER as int), SIZE_WIDTH as int)
}

pub open spec fn separator_for(width: u16) -> int {
    sat_sub(size_start_for(width), GUTTER as int)
}

/// The first column of the title text in a panel that starts at `results_x`.
pub open spec fn title_start(results_x: u16) -> int {
    results_x + TITLE_INDENT
}

/// The geometry for a `width` by `height` terminal with the results panel at
/// `results_x`.
pub open spec fn layout_for(width: u16, height: u16, results_x: u16) -> LayoutCache {
    LayoutCache {
        title_width: sat_sub(separator_for(width), title_start(results_x)) as usize,
        size_column: size_start_for(width) as u16,
        seeds_column: seeds_start_for(width) as u16,
        source_column: source_start_for(width) as u16,
        separator_column: separator_for(width) as u16,
        right_border_column: right_border_for(width) as usize,
        terminal_width: width,
        terminal_height: height,
    }
}

/// The narrowest terminal on which every column gets its full width.
pub open spec fn min_full_width(results_x: u16) -> int {
    title_start(results_x) + GUTTER + SIZE_WIDTH + GUTTER + SEEDERS_WIDTH + GUTTER + SOURCE_WIDTH
        + MARGIN_X + 1
}

/// The column ranges, read left to right, do not overlap.
pub open spec fn columns_ordered(g: LayoutCache, results_x: u16) -> bool {
    let title_end = title_start(results_x) + g.title_width;
    let size_end = g.size_column + SIZE_WIDTH;
    let seeds_end = g.seeds_column + SEEDERS_WIDTH;
    let source_end = g.source_column + SOURCE_WIDTH;
    &&& title_end <= g.separator_column
    &&& g.separator_column < g.size_column
    &&& g.size_column < size_end
    &&& size_end < g.seeds_column
    &&& g.seeds_column < seeds_end
    &&& seeds_end < g.source_column
    &&& g.source_column < source_end
    &&& source_end <= g.right_border_column
}

/// On a terminal at least `min_full_width` wide the table columns are
/// ordered left to right without overlap, from the end of the title to the
/// right border.
pub proof fn lemma_columns_ordered(width: u16, height: u16, results_x: u16)
    requires
        width >= min_full_width(results_x),
    ensures
        columns_ordered(layout_for(width, height, results_x), results_x),
{
}

impl LayoutCache {
    pub fn new(term_width: u16, term_height: u16, results_x: u16) -> (r: Self)
        ensures
            r == layout_for(term_width, term_height, results_x),
    {
        let right_border_col = (term_width as usize).saturating_sub(MARGIN_X as usize + 1);
        let source_end = right_border_col;
        let source_start = source_end.saturating_sub(SOURCE_WIDTH);
        let seeds_end = source_start.saturating_sub(GUTTER);
        let seeds_start = seeds_end.saturating_sub(SEEDERS_WIDTH);
        let size_end = seeds_start.saturating_sub(GUTTER);
        let size_start = size_end.saturating_sub(SIZE_WIDTH);
        let sep_pos = size_start.saturating_sub(GUTTER);
        let title_width = sep_pos.saturating_sub(results_x as usize + TITLE_INDENT);
        LayoutCache {
            title_width,
            size_column: size_start as u16,
            seeds_column: seeds_start as u16,
            source_column: source_start as u16,
            separator_column: sep_pos as u16,
            right_border_column: right_border_col,
            terminal_width: term_width,
            terminal_height: term_height,
        }
    }

    /// Whether the geometry was computed for another terminal size.
    pub fn needs_update(&self, term_width: u16, term_height: u16) -> (r: bool)
        ensures
            r == (self.terminal_width != term_width || self.terminal_height != term_height),
    {
        self.terminal_width != term_width || self.terminal_height != term_height
    }
}

} // verus!
