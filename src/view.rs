//! What each frame shows, as text and geometry: the cells of the result
//! table, the visible window of rows, the Filters panel lines, the progress
//! box, and the paddings of the search and status bars. Putting it on the
//! terminal is the caller's part.

use vstd::prelude::*;
use vstd::string::*;
use crate::layout::{sat_sub, FILTER_BOX_CONTENT_WIDTH, HEADER_HEIGHT, STATUS_BAR_LINES};
use crate::marquee::ring_read;
use crate::models::{size_text, TorrentResult};
use crate::panel::{
    filter_row, filter_row_at, indexer_label, indexer_label_string, min_seeder_option, min_seeder_option_at,
    sort_option, sort_option_at, FilterRow, Panel, ALL_INDEXERS, FILTER_ROW_COUNT,
};
use crate::search::SortMode;
use crate::text::{center, decimal, pad_left, pad_right, push_decimal, push_spaces, push_str, spaces};
use crate::ui::App;

verus! {

/// What `str::to_lowercase` returns for these characters.
pub uninterp spec fn lower_of(s: Seq<char>) -> Seq<char>;

/// Relies on `str::to_lowercase`: the result depends on the characters
/// alone.
#[verifier::external_body]
fn lowercase(s: &str) -> (r: String)
    ensures
        r@ == lower_of(s@),
{
    s.to_lowercase()
}

/// The characters of `s`.
pub fn chars_of(s: &str) -> (r: Vec<char>)
    ensures
        r@ == s@,
{
    let n = s.unicode_len();
    let mut out: Vec<char> = Vec::new();
    let mut i: usize = 0;
    while i < n
        invariant
            n == s@.len(),
            i <= n,
            out@ == s@.take(i as int),
        decreases n - i,
    {
        out.push(s.get_char(i));
        i = i + 1;
        assert(out@ =~= s@.take(i as int));
    }
    assert(out@ =~= s@);
    out
}

/// Appends `chars[from..to]`.
fn push_range(out: &mut String, chars: &Vec<char>, from: usize, to: usize)
    requires
        from <= to <= chars@.len(),
    ensures
        final(out)@ == old(out)@ + chars@.subrange(from as int, to as int),
{
    let ghost start = out@;
    let mut i = from;
    while i < to
        invariant
            from <= i <= to,
            to <= chars@.len(),
            out@ == start + chars@.subrange(from as int, i as int),
        decreases to - i,
    {
        out.push(chars[i]);
        i = i + 1;
        assert(out@ =~= start + chars@.subrange(from as int, i as int));
    }
}

/// Whether `needle` occurs in `hay`.
pub open spec fn contains_text(hay: Seq<char>, needle: Seq<char>) -> bool {
    exists|i: int| 0 <= i && i + needle.len() <= hay.len() && #[trigger] hay.subrange(i, i + needle.len()) == needle
}

/// Whether `needle` occurs in `hay`.
pub fn find_text(hay: &Vec<char>, needle: &Vec<char>) -> (r: bool)
    ensures
        r == contains_text(hay@, needle@),
{
    let n = needle.len();
    if n > hay.len() {
        return false;
    }
    let mut i: usize = 0;
    while n <= hay.len() - i
        invariant
            n == needle@.len(),
            n <= hay@.len(),
            i <= hay@.len(),
            forall|j: int| 0 <= j < i ==> #[trigger] hay@.subrange(j, j + n) != needle@,
        decreases hay@.len() - i,
    {
        let mut k: usize = 0;
        let end = i + n;
        while k < n && hay[end - n + k] == needle[k]
            invariant
                n == needle@.len(),
                end == i + n,
                end <= hay@.len(),
                k <= n,
                hay@.subrange(i as int, i + k) == needle@.subrange(0, k as int),
            decreases n - k,
        {
            proof {
                assert(hay@.subrange(i as int, i + k + 1) =~= hay@.subrange(i as int, i + k).push(hay@[i + k]));
                assert(needle@.subrange(0, k + 1) =~= needle@.subrange(0, k as int).push(needle@[k as int]));
            }
            k = k + 1;
        }
        if k == n {
            assert(needle@.subrange(0, n as int) =~= needle@);
            return true;
        }
        proof {
            assert(hay@.subrange(i as int, i + n)[k as int] == hay@[i + k]);
        }
        i = i + 1;
    }
    assert forall|j: int| 0 <= j && j + n <= hay@.len() implies #[trigger] hay@.subrange(j, j + n) != needle@ by {
        assert(j < i);
    }
    false
}

/// The short name a hit's index is shown under, given the name and its
/// lower-case form.
pub open spec fn source_label_text(name: Seq<char>, lowered: Seq<char>) -> Seq<char> {
    if contains_text(lowered, "rutracker"@) {
        "RUtracker"@
    } else if name == "thepiratebay"@ || name == "The Pirate Bay"@ {
        "TPB"@
    } else if name == "eztv"@ {
        "EZTV"@
    } else if name == "therarbg"@ {
        "RARBG"@
    } else if name == "yts"@ {
        "YTS"@
    } else {
        name
    }
}

/// The source column: the label cut to seven characters and an ellipsis
/// when longer than ten, padded to ten.
pub open spec fn source_cell_text(label: Seq<char>) -> Seq<char> {
    pad_right(if label.len() > 10 { label.take(7) + "..."@ } else { label }, 10)
}

/// The short name for a hit's index, from the name and its lower-case form.
pub fn source_label_from(name: &String, lowered: &String) -> (r: String)
    ensures
        r@ == source_label_text(name@, lowered@),
{
    let hay = chars_of(lowered.as_str());
    let needle = chars_of("rutracker");
    if find_text(&hay, &needle) {
        return String::from_str("RUtracker");
    }
    if *name == String::from_str("thepiratebay") || *name == String::from_str("The Pirate Bay") {
        String::from_str("TPB")
    } else if *name == String::from_str("eztv") {
        String::from_str("EZTV")
    } else if *name == String::from_str("therarbg") {
        String::from_str("RARBG")
    } else if *name == String::from_str("yts") {
        String::from_str("YTS")
    } else {
        name.clone()
    }
}

/// The short name for a hit's index.
pub fn source_label(name: &String) -> (r: String)
    ensures
        r@ == source_label_text(name@, lower_of(name@)),
{
    let lowered = lowercase(name.as_str());
    source_label_from(name, &lowered)
}

/// The source column cell for a label.
pub fn source_cell(label: &String) -> (r: String)
    ensures
        r@ == source_cell_text(label@),
{
    let chars = chars_of(label.as_str());
    let mut s = String::new();
    if chars.len() > 10 {
        push_range(&mut s, &chars, 0, 7);
        push_str(&mut s, "...");
        assert(chars@.subrange(0, 7) =~= label@.take(7));
    } else {
        push_range(&mut s, &chars, 0, chars.len());
        assert(chars@.subrange(0, chars@.len() as int) =~= label@);
    }
    let used = s.as_str().unicode_len();
    if used < 10 {
        push_spaces(&mut s, 10 - used);
    }
    proof {
        reveal_strlit("...");
    }
    s
}

/// The title column: a long title scrolls when highlighted and is cut with
/// an ellipsis otherwise; a short one is padded to the column width.
pub open spec fn title_cell_text(title: Seq<char>, width: nat, highlighted: bool, scroll: nat) -> Seq<char> {
    if title.len() > width {
        if highlighted {
            let ext = title + spaces(4);
            ring_read(ext, scroll % ext.len(), width)
        } else {
            title.take(sat_sub(width as int, 3)) + "..."@
        }
    } else {
        pad_right(title, width)
    }
}

pub fn title_cell(title: &String, width: usize, highlighted: bool, scroll: usize) -> (r: String)
    ensures
        r@ == title_cell_text(title@, width as nat, highlighted, scroll as nat),
{
    let chars = chars_of(title.as_str());
    let n = chars.len();
    let mut s = String::new();
    if n > width {
        if highlighted {
            let ghost ext = title@ + spaces(4);
            let len: u128 = n as u128 + 4;
            let start: u128 = (scroll as u128) % len;
            let mut k: usize = 0;
            while k < width
                invariant
                    n == chars@.len(),
                    chars@ == title@,
                    ext == title@ + spaces(4),
                    len == ext.len(),
                    start == (scroll as int) % (len as int),
                    k <= width,
                    s@ == ring_read(ext, scroll as nat % ext.len(), width as nat).take(k as int),
                decreases width - k,
            {
                let pos: u128 = (start + k as u128) % len;
                let c = if pos < n as u128 { chars[pos as usize] } else { ' ' };
                s.push(c);
                k = k + 1;
                assert(s@ =~= ring_read(ext, scroll as nat % ext.len(), width as nat).take(k as int));
            }
            assert(s@ =~= ring_read(ext, scroll as nat % ext.len(), width as nat));
        } else {
            let keep = width.saturating_sub(3);
            push_range(&mut s, &chars, 0, keep);
            push_str(&mut s, "...");
            assert(chars@.subrange(0, keep as int) =~= title@.take(keep as int));
        }
    } else {
        push_range(&mut s, &chars, 0, n);
        push_spaces(&mut s, width - n);
        assert(chars@.subrange(0, n as int) =~= title@);
        assert(s@ =~= pad_right(title@, width as nat));
    }
    s
}

/// The size column cell, right-aligned in twelve characters.
pub fn size_cell(entry: &TorrentResult) -> (r: String)
    ensures
        r@ == pad_left(size_text(entry.size as nat), 12),
{
    let text = entry.size_str();
    let n = text.as_str().unicode_len();
    let mut s = String::new();
    if n < 12 {
        push_spaces(&mut s, 12 - n);
    }
    push_str(&mut s, text.as_str());
    assert(s@ =~= pad_left(size_text(entry.size as nat), 12));
    s
}

/// The seeders column cell, centred in five characters.
pub fn seeds_cell(entry: &TorrentResult) -> (r: String)
    ensures
        r@ == center(decimal(entry.seeders as nat), 5),
{
    let mut digits = String::new();
    push_decimal(&mut digits, entry.seeders as u64);
    let n = digits.as_str().unicode_len();
    let mut s = String::new();
    if n < 5 {
        let free = 5 - n;
        push_spaces(&mut s, free / 2);
        push_str(&mut s, digits.as_str());
        push_spaces(&mut s, free - free / 2);
    } else {
        push_str(&mut s, digits.as_str());
    }
    assert(s@ =~= center(decimal(entry.seeders as nat), 5));
    s
}

/// Rows the result table can show in a frame of `content_height` rows.
pub open spec fn table_rows(content_height: u16) -> int {
    sat_sub(content_height as int, HEADER_HEIGHT + 1 + STATUS_BAR_LINES + 2)
}

/// The rows of the result table on screen, `first..end`, and whether rows
/// are hidden above or below.
#[derive(Clone, Copy, Debug, PartialEq, Eq, Structural)]
pub struct TableWindow {
    pub first: usize,
    pub end: usize,
    pub more_above: bool,
    pub more_below: bool,
}

/// One row of the result table, ready to print.
#[derive(Debug)]
pub struct ResultRow {
    pub marked: bool,
    pub highlighted: bool,
    pub title: String,
    pub size: String,
    pub seeds: String,
    pub source: String,
}

/// The printed form of entry `e`.
pub open spec fn row_shows(row: ResultRow, e: TorrentResult, highlighted: bool, title_width: nat, scroll: nat) -> bool {
    &&& row.marked == e.selected
    &&& row.highlighted == highlighted
    &&& row.title@ == title_cell_text(e.title@, title_width, highlighted, scroll)
    &&& row.size@ == pad_left(size_text(e.size as nat), 12)
    &&& row.seeds@ == center(decimal(e.seeders as nat), 5)
    &&& row.source@ == source_cell_text(source_label_text(e.indexer@, lower_of(e.indexer@)))
}

/// One line of the Filters panel.
#[derive(Debug)]
pub struct FilterLine {
    /// The text, padded to the box width.
    pub text: String,
    /// The cursor is on this line while the panel has focus.
    pub at_cursor: bool,
    /// The option is in effect.
    pub chosen: bool,
}

pub open spec fn sort_name(i: int) -> Seq<char> {
    if i == 0 { "Seeders"@ } else if i == 1 { "Size"@ } else { "Name"@ }
}

pub open spec fn adult_label(i: int) -> Seq<char> {
    if i == 0 { "Filter NSFW"@ } else { "Allow NSFW"@ }
}

/// A radio button: filled under the cursor or when chosen.
pub open spec fn radio(on: bool) -> Seq<char> {
    if on { "●"@ } else { "○"@ }
}

/// A check box.
pub open spec fn check_box(on: bool) -> Seq<char> {
    if on { "[✓]"@ } else { "[ ]"@ }
}

/// Whether the option of Filters row `c` is in effect in `s`.
pub open spec fn row_chosen(s: App, c: int) -> bool {
    match filter_row(c) {
        FilterRow::Sort(i) => s.sort_by == sort_option(i as int),
        FilterRow::Indexer(i) => s.selected_indexers@.contains(i),
        FilterRow::MinSeeders(i) => s.min_seeds == min_seeder_option(i as int),
        FilterRow::Adult(i) => s.filter_nsfw == (i == 0),
    }
}

/// The text of Filters row `c`.
pub open spec fn filter_line_text(c: int, cursor: bool, chosen: bool) -> Seq<char> {
    let body = match filter_row(c) {
        FilterRow::Sort(i) => radio(cursor || chosen) + " "@ + sort_name(i as int),
        FilterRow::Indexer(i) => check_box(chosen) + " "@ + indexer_label(i as int),
        FilterRow::MinSeeders(i) => radio(cursor || chosen) + " "@ + decimal(min_seeder_option(i as int) as nat)
            + " seeds"@,
        FilterRow::Adult(i) => radio(cursor || chosen) + " "@ + adult_label(i as int),
    };
    pad_right(body, FILTER_BOX_CONTENT_WIDTH as nat)
}

/// The spinner glyph of a frame.
pub open spec fn spinner_glyph(frame: u8) -> char {
    let k = frame % 4;
    if k == 0 { '|' } else if k == 1 { '/' } else if k == 2 { '-' } else { '\\' }
}

/// The upload banner: in progress, then done.
pub open spec fn upload_text(count: nat, title: Seq<char>, complete: bool) -> Seq<char> {
    if count == 1 {
        if complete { "Sent '"@ + title + "' to Put.io!"@ } else { "Sending '"@ + title + "' to Put.io"@ }
    } else {
        if complete {
            "Sent "@ + decimal(count) + " files to Put.io!"@
        } else {
            "Sending "@ + decimal(count) + " files to Put.io"@
        }
    }
}

/// The message of the progress box, if a job is running or an upload has
/// just finished.
pub open spec fn progress_text(s: App) -> Option<Seq<char>> {
    if s.searching {
        Some("Fetching "@ + seq![spinner_glyph(s.spinner_frame)])
    } else if s.sending_to_putio {
        let icon = if s.sending_complete { "✓"@ } else { seq![spinner_glyph(s.spinner_frame)] };
        Some(icon + " "@ + upload_text(s.sent_count as nat, s.sent_title@, s.sending_complete))
    } else {
        None
    }
}

/// Placement of the progress box.
#[derive(Clone, Copy, Debug, PartialEq, Eq, Structural)]
pub struct BoxGeometry {
    pub x: usize,
    pub y: usize,
    /// Outer width, borders included.
    pub width: usize,
    /// Spaces before the message inside the borders.
    pub left_pad: usize,
    /// Spaces after it.
    pub right_pad: usize,
}

/// The progress box around a message of `msg_len` characters, centred in a
/// panel that starts at column `x` and row `y`.
pub open spec fn box_for(x: u16, y: u16, term_width: u16, content_height: u16, msg_len: nat) -> BoxGeometry {
    let width = msg_len + 4;
    let panel_width = sat_sub(term_width as int, x + 1);
    let left = sat_sub(width - 2, msg_len as int) / 2;
    BoxGeometry {
        x: (x + sat_sub(panel_width, width as int) / 2) as usize,
        y: (y + sat_sub(content_height as int, y + STATUS_BAR_LINES + 5) / 2) as usize,
        width: width as usize,
        left_pad: left as usize,
        right_pad: sat_sub(width - 2, msg_len + left) as usize,
    }
}

pub fn progress_box(x: u16, y: u16, term_width: u16, content_height: u16, msg_len: usize) -> (r: BoxGeometry)
    requires
        msg_len <= usize::MAX - 4,
    ensures
        r == box_for(x, y, term_width, content_height, msg_len as nat),
{
    let width = msg_len + 4;
    let panel_width = (term_width as usize).saturating_sub(x as usize + 1);
    let left = (width - 2).saturating_sub(msg_len) / 2;
    BoxGeometry {
        x: x as usize + panel_width.saturating_sub(width) / 2,
        y: y as usize + (content_height as usize).saturating_sub(y as usize + STATUS_BAR_LINES as usize + 5) / 2,
        width,
        left_pad: left,
        right_pad: (width - 2).saturating_sub(msg_len + left),
    }
}

/// Index rows the Filters panel has room for.
pub open spec fn indexer_rows_for(content_height: u16) -> int {
    vstd::math::min(sat_sub(content_height as int, 19), 9)
}

pub fn indexer_rows_shown(content_height: u16) -> (r: usize)
    ensures
        r == indexer_rows_for(content_height),
{
    let room = (content_height as usize).saturating_sub(19);
    if room < 9 { room } else { 9 }
}

/// The key help shown above the ticker.
pub open spec fn help_text() -> Seq<char> {
    "Tab/←→: panels | ↑↓: navigate | Space: toggle | Enter: search/send | ESC: quit"@
}

pub fn help_line() -> (r: String)
    ensures
        r@ == help_text(),
{
    String::from_str("Tab/←→: panels | ↑↓: navigate | Space: toggle | Enter: search/send | ESC: quit")
}

impl App {
    /// Which result rows are on screen.
    pub fn table_window(&self, content_height: u16) -> (r: TableWindow)
        requires
            self.wf(),
        ensures
            r.first == self.scroll_offset,
            r.end == self.scroll_offset + vstd::math::min(
                table_rows(content_height),
                self.results@.len() - self.scroll_offset,
            ),
            r.more_above == (self.scroll_offset > 0),
            r.more_below == (r.end < self.results@.len()),
    {
        let rows = (content_height as usize).saturating_sub(HEADER_HEIGHT as usize + 1 + STATUS_BAR_LINES as usize + 2);
        let left = self.results.len() - self.scroll_offset;
        let end = self.scroll_offset + if rows < left { rows } else { left };
        TableWindow {
            first: self.scroll_offset,
            end,
            more_above: self.scroll_offset > 0,
            more_below: end < self.results.len(),
        }
    }

    /// The result rows on screen, in order.
    pub fn visible_rows(&self, content_height: u16) -> (r: Vec<ResultRow>)
        requires
            self.wf(),
            self.layout_cache is Some,
        ensures
            ({
                let first = self.scroll_offset as int;
                let end = self.scroll_offset + vstd::math::min(
                    table_rows(content_height),
                    self.results@.len() - self.scroll_offset,
                );
                &&& r@.len() == end - first
                &&& forall|k: int|
                    0 <= k < r@.len() ==> row_shows(
                        #[trigger] r@[k],
                        self.results@[first + k],
                        first + k == self.selected_index && self.active_panel == Panel::Results,
                        self.layout_cache->0.title_width as nat,
                        self.title_scroll_offset as nat,
                    )
            }),
    {
        let window = self.table_window(content_height);
        let title_width = match &self.layout_cache {
            Some(g) => g.title_width,
            None => 0,
        };
        let active = match self.active_panel {
            Panel::Results => true,
            _ => false,
        };
        let mut rows: Vec<ResultRow> = Vec::new();
        let mut i = window.first;
        while i < window.end
            invariant
                self.wf(),
                window.first == self.scroll_offset,
                window.first <= i <= window.end,
                window.end <= self.results@.len(),
                title_width == self.layout_cache->0.title_width,
                active == (self.active_panel == Panel::Results),
                rows@.len() == i - window.first,
                forall|k: int|
                    0 <= k < rows@.len() ==> row_shows(
                        #[trigger] rows@[k],
                        self.results@[window.first + k],
                        window.first + k == self.selected_index && active,
                        title_width as nat,
                        self.title_scroll_offset as nat,
                    ),
            decreases window.end - i,
        {
            let e = &self.results[i];
            let highlighted = i == self.selected_index && active;
            let row = ResultRow {
                marked: e.selected,
                highlighted,
                title: title_cell(&e.title, title_width, highlighted, self.title_scroll_offset),
                size: size_cell(e),
                seeds: seeds_cell(e),
                source: source_cell(&source_label(&e.indexer)),
            };
            rows.push(row);
            i = i + 1;
        }
        rows
    }

    /// The lines of the Filters panel, one per row, in cursor order.
    pub fn filter_lines(&self) -> (r: Vec<FilterLine>)
        requires
            self.wf(),
        ensures
            r@.len() == FILTER_ROW_COUNT,
            forall|c: int|
                0 <= c < FILTER_ROW_COUNT ==> {
                    let cursor = self.active_panel == Panel::Filters && self.sort_cursor == c;
                    &&& (#[trigger] r@[c]).at_cursor == cursor
                    &&& r@[c].chosen == row_chosen(*self, c)
                    &&& r@[c].text@ == filter_line_text(c, cursor, row_chosen(*self, c))
                },
    {
        let focused = match self.active_panel {
            Panel::Filters => true,
            _ => false,
        };
        let mut lines: Vec<FilterLine> = Vec::new();
        let mut c: usize = 0;
        while c < FILTER_ROW_COUNT
            invariant
                self.wf(),
                c <= FILTER_ROW_COUNT,
                focused == (self.active_panel == Panel::Filters),
                lines@.len() == c,
                forall|j: int|
                    0 <= j < c ==> {
                        let cursor = self.active_panel == Panel::Filters && self.sort_cursor == j;
                        &&& (#[trigger] lines@[j]).at_cursor == cursor
                        &&& lines@[j].chosen == row_chosen(*self, j)
                        &&& lines@[j].text@ == filter_line_text(j, cursor, row_chosen(*self, j))
                    },
            decreases FILTER_ROW_COUNT - c,
        {
            let cursor = focused && self.sort_cursor == c;
            let line = self.filter_line(c, cursor);
            lines.push(line);
            c = c + 1;
        }
        lines
    }

    fn filter_line(&self, c: usize, cursor: bool) -> (r: FilterLine)
        requires
            self.wf(),
            c < FILTER_ROW_COUNT,
        ensures
            r.at_cursor == cursor,
            r.chosen == row_chosen(*self, c as int),
            r.text@ == filter_line_text(c as int, cursor, row_chosen(*self, c as int)),
    {
        let mut text = String::new();
        let chosen;
        match filter_row_at(c) {
            FilterRow::Sort(i) => {
                chosen = self.sort_by == sort_option_at(i);
                push_str(&mut text, if cursor || chosen { "●" } else { "○" });
                push_str(&mut text, " ");
                push_str(&mut text, if i == 0 { "Seeders" } else if i == 1 { "Size" } else { "Name" });
            },
            FilterRow::Indexer(i) => {
                chosen = self.has_indexer(i);
                push_str(&mut text, if chosen { "[✓]" } else { "[ ]" });
                push_str(&mut text, " ");
                let label = indexer_label_string(i);
                push_str(&mut text, label.as_str());
            },
            FilterRow::MinSeeders(i) => {
                let option = min_seeder_option_at(i);
                chosen = self.min_seeds == option;
                push_str(&mut text, if cursor || chosen { "●" } else { "○" });
                push_str(&mut text, " ");
                push_decimal(&mut text, option as u64);
                push_str(&mut text, " seeds");
            },
            FilterRow::Adult(i) => {
                chosen = self.filter_nsfw == (i == 0);
                push_str(&mut text, if cursor || chosen { "●" } else { "○" });
                push_str(&mut text, " ");
                push_str(&mut text, if i == 0 { "Filter NSFW" } else { "Allow NSFW" });
            },
        }
        let used = text.as_str().unicode_len();
        if used < FILTER_BOX_CONTENT_WIDTH {
            push_spaces(&mut text, FILTER_BOX_CONTENT_WIDTH - used);
        }
        proof {
            assert(text@ =~= filter_line_text(c as int, cursor, chosen));
        }
        FilterLine { text, at_cursor: cursor, chosen }
    }

    fn has_indexer(&self, i: usize) -> (r: bool)
        ensures
            r == self.selected_indexers@.contains(i),
    {
        let sel = &self.selected_indexers;
        let mut k: usize = 0;
        while k < sel.len()
            invariant
                sel == &self.selected_indexers,
                k <= sel@.len(),
                forall|j: int| 0 <= j < k ==> sel@[j] != i,
            decreases sel@.len() - k,
        {
            if sel[k] == i {
                assert(sel@[k as int] == i);
                return true;
            }
            k = k + 1;
        }
        false
    }

    /// The message of the progress box, if one is shown.
    pub fn progress_message(&self) -> (r: Option<String>)
        ensures
            match (r, progress_text(*self)) {
                (Some(m), Some(t)) => m@ == t,
                (None, None) => true,
                _ => false,
            },
    {
        let k = self.spinner_frame % 4;
        let glyph = if k == 0 { '|' } else if k == 1 { '/' } else if k == 2 { '-' } else { '\\' };
        if self.searching {
            let mut m = String::from_str("Fetching ");
            m.push(glyph);
            Some(m)
        } else if self.sending_to_putio {
            let mut m = String::new();
            if self.sending_complete {
                push_str(&mut m, "✓");
            } else {
                m.push(glyph);
            }
            push_str(&mut m, " ");
            let done = self.sending_complete;
            if self.sent_count == 1 {
                push_str(&mut m, if done { "Sent '" } else { "Sending '" });
                push_str(&mut m, self.sent_title.as_str());
                push_str(&mut m, if done { "' to Put.io!" } else { "' to Put.io" });
            } else {
                push_str(&mut m, if done { "Sent " } else { "Sending " });
                push_decimal(&mut m, self.sent_count as u64);
                push_str(&mut m, if done { " files to Put.io!" } else { " files to Put.io" });
            }
            proof {
                let t = progress_text(*self)->0;
                assert(m@ =~= t);
            }
            Some(m)
        } else {
            None
        }
    }

    /// Spaces between the query (and its cursor mark) and the right border
    /// of a search bar at column `x`, `width` wide.
    pub fn search_bar_fill(&self, x: u16, width: u16) -> (r: usize)
        ensures
            r == sat_sub(
                x + width - 1,
                x + 12 + self.query@.len() + if self.active_panel == Panel::Search { 1int } else { 0int },
            ),
    {
        let mark: usize = match self.active_panel {
            Panel::Search => 1,
            _ => 0,
        };
        let q = self.query.as_str().unicode_len();
        let right: u128 = (x as u128 + width as u128).saturating_sub(1);
        let used: u128 = x as u128 + 12 + q as u128 + mark as u128;
        if right > used { (right - used) as usize } else { 0 }
    }

    /// `N results`, or nothing without results.
    pub fn result_count_text(&self) -> (r: String)
        ensures
            self.results@.len() > 0 ==> r@ == decimal(self.results@.len()) + " results"@,
            self.results@.len() == 0 ==> r@.len() == 0,
    {
        let mut s = String::new();
        if self.results.len() > 0 {
            push_decimal(&mut s, self.results.len() as u64);
            push_str(&mut s, " results");
        }
        s
    }
}

/// Spaces between the key help and the result count on a line `width`
/// wide.
pub fn status_fill(width: u16, count_len: usize) -> (r: usize)
    ensures
        r == sat_sub(width as int, help_text().len() + count_len),
{
    let used = 78usize;
    proof {
        reveal_strlit("Tab/←→: panels | ↑↓: navigate | Space: toggle | Enter: search/send | ESC: quit");
    }
    if count_len > (width as usize) {
        0
    } else {
        (width as usize - count_len).saturating_sub(used)
    }
}

} // verus!
