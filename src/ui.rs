//! The dashboard's state and its transitions: key handling, dispatch of
//! search and upload jobs, the outcomes that come back from them, and the
//! animation tick. Performing a job, reading keys and drawing are the
//! caller's part; here every step is a function from state and event to the
//! next state and a command.

use vstd::prelude::*;
use crate::api::{lemma_string_views_push, string_views, ChillClient, PutioClient};
use crate::config::Config;
use crate::layout::{layout_for, LayoutCache, MARGIN_X, RESULTS_X_OFFSET};
use crate::marquee::{advanced, next_title_scroll, title_scroll_step, MarqueeCache, TITLE_SCROLL_LIMIT};
use crate::models::TorrentResult;
use crate::panel::{
    filter_row, filter_row_at, indexer_api_name, indexer_api_string, min_seeder_option,
    min_seeder_option_at, next_panel, panel_name, previous_panel, selection_wf, sort_option,
    sort_option_at, toggle_indexer, toggled, FilterRow, Key, Panel, ALL_INDEXERS,
    FILTER_ROW_COUNT, INDEXER_COUNT,
};
use crate::search::SortMode;
use crate::text::{decimal, push_decimal, push_str};

verus! {

/// The banner of the status ticker.
pub open spec fn banner_text() -> Seq<char> {
    "+++ ChillTUI - chill.institute but from the terminal! Search for content and press enter to send results to Put.io +++    +++"@
}

/// Rows hidden by frame and headers when the table height is derived from
/// the terminal height.
pub const TABLE_CHROME_ROWS: u16 = 7;
/// Animation frames per title-scroll step.
pub const FRAMES_PER_SCROLL_STEP: u8 = 3;
/// The seeder threshold a session starts with.
pub const DEFAULT_MIN_SEEDERS: u32 = 10;

/// Column of the results panel on screen.
pub open spec fn results_panel_x() -> u16 {
    (RESULTS_X_OFFSET + MARGIN_X) as u16
}

/// The spinner frame after one more step.
pub open spec fn spun(frame: u8) -> u8 {
    ((frame + 1) % 256) as u8
}

/// What a search job needs, copied out of the state when it is dispatched.
#[derive(Debug)]
pub struct SearchRequest {
    pub query: String,
    /// Provider names of the indexes to ask.
    pub indexers: Vec<String>,
    pub min_seeders: u32,
    pub sort_by: SortMode,
    pub filter_nsfw: bool,
}

/// What an upload job needs.
#[derive(Debug)]
pub struct UploadRequest {
    pub folder_name: String,
    /// The destination folder, when already known; else it is looked up or
    /// created by name.
    pub folder_id: Option<u64>,
    pub magnets: Vec<String>,
}

/// What the caller has to do after a key press.
#[derive(Debug)]
pub enum Command {
    Continue,
    Quit,
    Search(SearchRequest),
    Upload(UploadRequest),
}

/// The dashboard state.
pub struct App {
    pub config: Config,
    pub chill_client: Option<ChillClient>,
    pub putio_client: Option<PutioClient>,
    pub debug: bool,
    pub query: String,
    pub active_panel: Panel,
    pub status_message: String,
    pub results: Vec<TorrentResult>,
    /// The highlighted result row.
    pub selected_index: usize,
    /// The first result row shown.
    pub scroll_offset: usize,
    pub title_scroll_offset: usize,
    pub title_scroll_forward: bool,
    pub sort_by: SortMode,
    /// Cursor over the rows of the Filters panel.
    pub sort_cursor: usize,
    /// Positions in the index table, in the order they were chosen.
    pub selected_indexers: Vec<usize>,
    pub min_seeds: u32,
    pub filter_nsfw: bool,
    pub searching: bool,
    pub sending_to_putio: bool,
    pub sending_complete: bool,
    /// Items in the current upload.
    pub sent_count: usize,
    /// Title of the first item in the current upload.
    pub sent_title: String,
    pub frame_counter: u8,
    pub spinner_frame: u8,
    pub should_animate: bool,
    pub cached_width: u16,
    pub cached_height: u16,
    pub layout_cache: Option<LayoutCache>,
    pub marquee_cache: MarqueeCache,
}

pub open spec fn switched_text(p: Panel) -> Seq<char> {
    "Switched to "@ + panel_name(p) + " panel"@
}

pub open spec fn found_text(n: nat) -> Seq<char> {
    "✓ Found "@ + decimal(n) + " results"@
}

pub open spec fn search_error_text(e: Seq<char>) -> Seq<char> {
    "✗ Search error: "@ + e
}

pub open spec fn fetching_text() -> Seq<char> {
    "Fetching results..."@
}

pub open spec fn no_search_client_text() -> Seq<char> {
    "✗ Chill API key not configured"@
}

pub open spec fn no_results_text() -> Seq<char> {
    "✗ No results available"@
}

pub open spec fn no_upload_client_text() -> Seq<char> {
    "✗ Put.io not configured"@
}

/// The provider names a search asks for: every index when `all` is chosen,
/// else the chosen ones in the order they were chosen.
pub open spec fn requested_indexers(sel: Seq<usize>) -> Seq<Seq<char>> {
    if sel.contains(ALL_INDEXERS) {
        Seq::new((INDEXER_COUNT - 1) as nat, |k: int| indexer_api_name(k + 1))
    } else {
        sel.map_values(|i: usize| indexer_api_name(i as int))
    }
}

/// The entries an upload sends: the marked ones, else the highlighted one.
pub open spec fn upload_items(results: Seq<TorrentResult>, highlighted: int) -> Seq<TorrentResult> {
    let marked = results.filter(is_marked());
    if marked.len() > 0 {
        marked
    } else if 0 <= highlighted < results.len() {
        seq![results[highlighted]]
    } else {
        Seq::empty()
    }
}

pub open spec fn is_marked() -> spec_fn(TorrentResult) -> bool {
    |e: TorrentResult| e.selected
}

/// `e` with its upload mark cleared.
pub open spec fn unmarked(e: TorrentResult) -> TorrentResult {
    TorrentResult { selected: false, ..e }
}

/// Every entry with its upload mark cleared.
pub open spec fn all_unmarked(results: Seq<TorrentResult>) -> Seq<TorrentResult> {
    results.map_values(|e: TorrentResult| unmarked(e))
}

pub open spec fn magnets_of(items: Seq<TorrentResult>) -> Seq<Seq<char>> {
    items.map_values(|e: TorrentResult| e.magnet@)
}

/// Moving the highlight restarts the title scroll.
pub open spec fn title_scroll_follows(old: App, new: App) -> bool {
    new.selected_index != old.selected_index ==> new.title_scroll_offset == 0 && new.title_scroll_forward
}

pub open spec fn same_filters(a: App, b: App) -> bool {
    &&& a.sort_by == b.sort_by
    &&& a.sort_cursor == b.sort_cursor
    &&& a.selected_indexers@ == b.selected_indexers@
    &&& a.min_seeds == b.min_seeds
    &&& a.filter_nsfw == b.filter_nsfw
}

pub open spec fn same_results(a: App, b: App) -> bool {
    &&& a.results@ == b.results@
    &&& a.selected_index == b.selected_index
    &&& a.scroll_offset == b.scroll_offset
    &&& a.title_scroll_offset == b.title_scroll_offset
    &&& a.title_scroll_forward == b.title_scroll_forward
}

pub open spec fn same_jobs(a: App, b: App) -> bool {
    &&& a.searching == b.searching
    &&& a.sending_to_putio == b.sending_to_putio
    &&& a.sending_complete == b.sending_complete
    &&& a.sent_count == b.sent_count
    &&& a.sent_title@ == b.sent_title@
    &&& a.spinner_frame == b.spinner_frame
    &&& a.should_animate == b.should_animate
}

pub open spec fn same_setup(a: App, b: App) -> bool {
    &&& a.config == b.config
    &&& a.chill_client == b.chill_client
    &&& a.putio_client == b.putio_client
    &&& a.debug == b.debug
    &&& a.frame_counter == b.frame_counter
    &&& a.cached_width == b.cached_width
    &&& a.cached_height == b.cached_height
    &&& a.layout_cache == b.layout_cache
    &&& a.marquee_cache == b.marquee_cache
}

/// Only the focus and the status line may differ.
pub open spec fn same_but_focus(a: App, b: App) -> bool {
    &&& same_filters(a, b)
    &&& same_results(a, b)
    &&& same_jobs(a, b)
    &&& same_setup(a, b)
    &&& a.query@ == b.query@
}

/// The request matches the state it was taken from, with `sel` as the index
/// selection.
pub open spec fn request_matches(req: SearchRequest, s: App, sel: Seq<usize>) -> bool {
    &&& req.query@ == s.query@
    &&& string_views(req.indexers@) == requested_indexers(sel)
    &&& req.min_seeders == s.min_seeds
    &&& req.sort_by == s.sort_by
    &&& req.filter_nsfw == s.filter_nsfw
}

/// A search dispatched from `old` with index selection `sel`: nothing
/// happens on an empty query; else the results are cleared, and either a
/// request goes out or, without a search client, the status says so.
pub open spec fn search_dispatched(old: App, new: App, cmd: Command, sel: Seq<usize>) -> bool {
    &&& new.sort_by == old.sort_by
    &&& new.sort_cursor == old.sort_cursor
    &&& new.min_seeds == old.min_seeds
    &&& new.filter_nsfw == old.filter_nsfw
    &&& new.selected_indexers@ == sel
    &&& same_setup(old, new)
    &&& new.query@ == old.query@
    &&& new.active_panel == old.active_panel
    &&& new.sending_to_putio == old.sending_to_putio
    &&& new.sending_complete == old.sending_complete
    &&& new.sent_count == old.sent_count
    &&& new.sent_title@ == old.sent_title@
    &&& if old.query@.len() == 0 {
        &&& cmd is Continue
        &&& same_results(old, new)
        &&& same_jobs(old, new)
        &&& new.status_message@ == old.status_message@
    } else {
        &&& new.results@.len() == 0
        &&& new.selected_index == 0
        &&& new.scroll_offset == 0
        &&& new.title_scroll_offset == 0
        &&& new.title_scroll_forward
        &&& new.spinner_frame == 0
        &&& new.should_animate
        &&& match old.chill_client {
            Some(_) => {
                &&& new.searching
                &&& new.status_message@ == fetching_text()
                &&& match cmd {
                    Command::Search(req) => request_matches(req, old, sel),
                    _ => false,
                }
            },
            None => {
                &&& !new.searching
                &&& new.status_message@ == no_search_client_text()
                &&& cmd is Continue
            },
        }
    }
}

/// An upload dispatched from `old`.
pub open spec fn upload_dispatched(old: App, new: App, cmd: Command) -> bool {
    let items = upload_items(old.results@, old.selected_index as int);
    &&& same_filters(old, new)
    &&& new.selected_index == old.selected_index
    &&& new.scroll_offset == old.scroll_offset
    &&& new.title_scroll_offset == old.title_scroll_offset
    &&& new.title_scroll_forward == old.title_scroll_forward
    &&& same_setup(old, new)
    &&& new.searching == old.searching
    &&& new.spinner_frame == old.spinner_frame
    &&& if items.len() == 0 {
        &&& cmd is Continue
        &&& new.results@ == old.results@
        &&& same_jobs(old, new)
        &&& new.query@ == old.query@
        &&& new.active_panel == old.active_panel
        &&& new.status_message@ == no_results_text()
    } else {
        &&& !new.sending_complete
        &&& new.should_animate
        &&& new.sent_count == items.len()
        &&& new.sent_title@ == items[0].title@
        &&& new.query@.len() == 0
        &&& new.active_panel == Panel::Search
        &&& match old.putio_client {
            Some(_) => {
                &&& new.sending_to_putio
                &&& new.results@ == all_unmarked(old.results@)
                &&& new.status_message@ == old.status_message@
                &&& match cmd {
                    Command::Upload(req) => {
                        &&& req.folder_name@ == old.config.putio_folder_name@
                        &&& req.folder_id == old.config.putio_folder_id
                        &&& string_views(req.magnets@) == magnets_of(items)
                    },
                    _ => false,
                }
            },
            None => {
                &&& !new.sending_to_putio
                &&& new.results@ == old.results@
                &&& new.status_message@ == no_upload_client_text()
                &&& cmd is Continue
            },
        }
    }
}

/// A key in the Search panel edits the query or moves focus down.
pub open spec fn search_key_applied(old: App, new: App, key: Key) -> bool {
    &&& same_filters(old, new)
    &&& same_results(old, new)
    &&& same_jobs(old, new)
    &&& same_setup(old, new)
    &&& new.status_message@ == old.status_message@
    &&& new.query@ == match key {
        Key::Char(c) => old.query@.push(c),
        Key::Backspace => if old.query@.len() > 0 { old.query@.drop_last() } else { old.query@ },
        _ => old.query@,
    }
    &&& new.active_panel == match key {
        Key::Up | Key::Down => if old.results@.len() > 0 { Panel::Results } else { Panel::Filters },
        _ => old.active_panel,
    }
}

/// A key in the Filters panel moves the cursor, leaves to the results, or
/// activates the row under the cursor.
pub open spec fn filter_key_applied(old: App, new: App, key: Key, cmd: Command) -> bool {
    match key {
        Key::Up => {
            &&& new.sort_cursor == if old.sort_cursor > 0 { (old.sort_cursor - 1) as usize } else { old.sort_cursor }
            &&& unchanged_but_cursor(old, new)
            &&& cmd is Continue
        },
        Key::Down => {
            &&& new.sort_cursor == if old.sort_cursor + 1 < FILTER_ROW_COUNT {
                (old.sort_cursor + 1) as usize
            } else {
                old.sort_cursor
            }
            &&& unchanged_but_cursor(old, new)
            &&& cmd is Continue
        },
        Key::Right => {
            &&& same_but_focus(old, new)
            &&& new.status_message@ == old.status_message@
            &&& new.active_panel == Panel::Results
            &&& cmd is Continue
        },
        Key::Char(' ') => row_activated(old, new, cmd),
        _ => {
            &&& same_but_focus(old, new)
            &&& new.status_message@ == old.status_message@
            &&& new.active_panel == old.active_panel
            &&& cmd is Continue
        },
    }
}

pub open spec fn unchanged_but_cursor(old: App, new: App) -> bool {
    &&& new.sort_by == old.sort_by
    &&& new.selected_indexers@ == old.selected_indexers@
    &&& new.min_seeds == old.min_seeds
    &&& new.filter_nsfw == old.filter_nsfw
    &&& same_results(old, new)
    &&& same_jobs(old, new)
    &&& same_setup(old, new)
    &&& new.query@ == old.query@
    &&& new.status_message@ == old.status_message@
    &&& new.active_panel == old.active_panel
}

/// The settings other than the one a row sets stay as they were.
pub open spec fn only_setting_changed(old: App, new: App) -> bool {
    &&& new.sort_cursor == old.sort_cursor
    &&& same_results(old, new)
    &&& same_jobs(old, new)
    &&& same_setup(old, new)
    &&& new.query@ == old.query@
    &&& new.status_message@ == old.status_message@
    &&& new.active_panel == old.active_panel
}

/// Activating the row under the Filters cursor.
pub open spec fn row_activated(old: App, new: App, cmd: Command) -> bool {
    match filter_row(old.sort_cursor as int) {
        FilterRow::Sort(i) => {
            &&& new.sort_by == sort_option(i as int)
            &&& new.selected_indexers@ == old.selected_indexers@
            &&& new.min_seeds == old.min_seeds
            &&& new.filter_nsfw == old.filter_nsfw
            &&& only_setting_changed(old, new)
            &&& cmd is Continue
        },
        FilterRow::Indexer(i) => {
            let sel = toggled(old.selected_indexers@, i);
            if old.results@.len() > 0 && old.query@.len() > 0 {
                search_dispatched(old, new, cmd, sel)
            } else {
                &&& new.sort_by == old.sort_by
                &&& new.selected_indexers@ == sel
                &&& new.min_seeds == old.min_seeds
                &&& new.filter_nsfw == old.filter_nsfw
                &&& only_setting_changed(old, new)
                &&& cmd is Continue
            }
        },
        FilterRow::MinSeeders(i) => {
            &&& new.sort_by == old.sort_by
            &&& new.selected_indexers@ == old.selected_indexers@
            &&& new.min_seeds == min_seeder_option(i as int)
            &&& new.filter_nsfw == old.filter_nsfw
            &&& only_setting_changed(old, new)
            &&& cmd is Continue
        },
        FilterRow::Adult(i) => {
            &&& new.sort_by == old.sort_by
            &&& new.selected_indexers@ == old.selected_indexers@
            &&& new.min_seeds == old.min_seeds
            &&& new.filter_nsfw == (i == 0)
            &&& only_setting_changed(old, new)
            &&& cmd is Continue
        },
    }
}

/// A key in the Results panel moves the highlight, marks the highlighted
/// row, or moves focus away.
pub open spec fn results_key_applied(old: App, new: App, key: Key) -> bool {
    let n = old.results@.len();
    let sel = old.selected_index;
    let height = if old.cached_height >= TABLE_CHROME_ROWS { old.cached_height - TABLE_CHROME_ROWS } else { 0 };
    &&& same_filters(old, new)
    &&& same_jobs(old, new)
    &&& same_setup(old, new)
    &&& new.query@ == old.query@
    &&& new.status_message@ == old.status_message@
    &&& match key {
        Key::Up => if n > 0 && sel > 0 {
            &&& new.selected_index == sel - 1
            &&& new.scroll_offset == if sel - 1 < old.scroll_offset { (sel - 1) as usize } else { old.scroll_offset }
            &&& new.title_scroll_offset == 0
            &&& new.title_scroll_forward
            &&& new.results@ == old.results@
            &&& new.active_panel == old.active_panel
        } else {
            &&& same_results(old, new)
            &&& new.active_panel == Panel::Search
        },
        Key::Down => if n > 0 && sel + 1 < n {
            &&& new.selected_index == sel + 1
            &&& new.scroll_offset == if sel + 1 >= old.scroll_offset + height {
                (sel + 1 - height + 1) as usize
            } else {
                old.scroll_offset
            }
            &&& new.title_scroll_offset == 0
            &&& new.title_scroll_forward
            &&& new.results@ == old.results@
            &&& new.active_panel == old.active_panel
        } else {
            &&& same_results(old, new)
            &&& new.active_panel == old.active_panel
        },
        Key::Left => {
            &&& same_results(old, new)
            &&& new.active_panel == Panel::Filters
        },
        Key::Char(' ') => {
            &&& new.active_panel == old.active_panel
            &&& new.selected_index == old.selected_index
            &&& new.scroll_offset == old.scroll_offset
            &&& new.title_scroll_offset == old.title_scroll_offset
            &&& new.title_scroll_forward == old.title_scroll_forward
            &&& new.results@ == if n > 0 {
                old.results@.update(sel as int, TorrentResult { selected: !old.results@[sel as int].selected, ..old.results@[sel as int] })
            } else {
                old.results@
            }
        },
        _ => {
            &&& same_results(old, new)
            &&& new.active_panel == old.active_panel
        },
    }
}

impl App {
    /// The state's invariant.
    pub open spec fn wf(&self) -> bool {
        &&& self.results@.len() == 0 ==> self.selected_index == 0 && self.scroll_offset == 0
        &&& self.results@.len() > 0 ==> self.selected_index < self.results@.len()
        &&& self.scroll_offset <= self.results@.len()
        &&& self.sort_cursor < FILTER_ROW_COUNT
        &&& selection_wf(self.selected_indexers@)
        &&& self.title_scroll_offset <= TITLE_SCROLL_LIMIT
        &&& self.title_scroll_forward ==> self.title_scroll_offset < TITLE_SCROLL_LIMIT
        &&& self.marquee_cache.wf()
        &&& self.layout_cache matches Some(g) ==> g == layout_for(
            self.cached_width,
            self.cached_height,
            results_panel_x(),
        )
    }
}

/// Whether a key press was handled as the panel state machine prescribes.
pub open spec fn key_handled(old: App, new: App, key: Key, cmd: Command) -> bool {
    match key {
        Key::Esc => cmd is Quit && new == old,
        Key::Tab => {
            &&& new.active_panel == next_panel(old.active_panel)
            &&& new.status_message@ == switched_text(new.active_panel)
            &&& same_but_focus(old, new)
            &&& cmd is Continue
        },
        Key::BackTab => {
            &&& new.active_panel == previous_panel(old.active_panel)
            &&& new.status_message@ == switched_text(new.active_panel)
            &&& same_but_focus(old, new)
            &&& cmd is Continue
        },
        Key::Enter => if old.active_panel == Panel::Results {
            upload_dispatched(old, new, cmd)
        } else {
            search_dispatched(old, new, cmd, old.selected_indexers@)
        },
        _ => match old.active_panel {
            Panel::Search => search_key_applied(old, new, key) && cmd is Continue,
            Panel::Filters => filter_key_applied(old, new, key, cmd),
            Panel::Results => results_key_applied(old, new, key) && cmd is Continue,
        },
    }
}

fn clone_text(o: &Option<String>) -> (r: Option<String>)
    ensures
        r == *o,
{
    match o {
        Some(s) => Some(s.clone()),
        None => None,
    }
}

fn switched_message(p: Panel) -> (r: String)
    ensures
        r@ == switched_text(p),
{
    let mut s = String::from_str("Switched to ");
    p.push_name(&mut s);
    push_str(&mut s, " panel");
    s
}

/// Copies of `results` with their upload marks cleared.
fn unmarked_copies(results: &Vec<TorrentResult>) -> (r: Vec<TorrentResult>)
    ensures
        r@ == all_unmarked(results@),
{
    let mut out: Vec<TorrentResult> = Vec::new();
    let mut i: usize = 0;
    while i < results.len()
        invariant
            i <= results@.len(),
            out@ == all_unmarked(results@.take(i as int)),
        decreases results@.len() - i,
    {
        let mut e = results[i].duplicate();
        e.selected = false;
        out.push(e);
        i = i + 1;
        assert(out@ =~= all_unmarked(results@.take(i as int)));
    }
    assert(results@.take(i as int) =~= results@);
    out
}

/// The magnets and the first title of the marked entries.
fn marked_items(results: &Vec<TorrentResult>) -> (r: (Vec<String>, Option<String>))
    ensures
        string_views(r.0@) == magnets_of(results@.filter(is_marked())),
        results@.filter(is_marked()).len() > 0 ==> r.1 == Some(results@.filter(is_marked())[0].title),
{
    let ghost keep = is_marked();
    let mut magnets: Vec<String> = Vec::new();
    let mut first: Option<String> = None;
    let mut i: usize = 0;
    while i < results.len()
        invariant
            keep == is_marked(),
            i <= results@.len(),
            string_views(magnets@) == magnets_of(results@.take(i as int).filter(keep)),
            results@.take(i as int).filter(keep).len() > 0 ==> first == Some(
                results@.take(i as int).filter(keep)[0].title,
            ),
            results@.take(i as int).filter(keep).len() == 0 ==> first is None,
        decreases results@.len() - i,
    {
        let ghost prev = results@.take(i as int).filter(keep);
        proof {
            assert(results@.take(i + 1) =~= results@.take(i as int).push(results@[i as int]));
            results@.take(i as int).lemma_filter_push(results@[i as int], keep);
        }
        if results[i].selected {
            let ghost old_m = magnets@;
            let m = results[i].magnet.clone();
            magnets.push(m);
            proof {
                lemma_string_views_push(old_m, m);
            }
            if first.is_none() {
                first = Some(results[i].title.clone());
            }
            proof {
                let cur = prev.push(results@[i as int]);
                assert(string_views(magnets@) =~= magnets_of(cur));
                if prev.len() > 0 {
                    assert(cur[0] == prev[0]);
                }
            }
        }
        i = i + 1;
    }
    assert(results@.take(i as int) =~= results@);
    (magnets, first)
}

impl App {
    fn create_chill_client(config: &Config) -> (r: Option<ChillClient>)
        ensures
            match (config.chill_api_key, r) {
                (Some(k), Some(c)) => c.key() == k@ && c.token() == config.putio_oauth_token
                    && c.base() == crate::api::chill_base_url(),
                (None, None) => true,
                _ => false,
            },
    {
        match &config.chill_api_key {
            Some(key) => Some(ChillClient::new(key.clone(), clone_text(&config.putio_oauth_token))),
            None => None,
        }
    }

    fn create_putio_client(config: &Config) -> (r: Option<PutioClient>)
        ensures
            match (config.putio_oauth_token, r) {
                (Some(t), Some(c)) => c.token_text() == t@ && c.base() == crate::api::putio_base_url(),
                (None, None) => true,
                _ => false,
            },
    {
        match &config.putio_oauth_token {
            Some(token) => Some(PutioClient::new(token.clone())),
            None => None,
        }
    }

    /// A fresh session: focus on Search, no results, every index, most
    /// seeders first, at least ten seeders, adult content filtered.
    pub fn new(config: Config, debug: bool) -> (r: App)
        ensures
            r.wf(),
            r.config == config,
            r.debug == debug,
            match (config.chill_api_key, r.chill_client) {
                (Some(k), Some(c)) => c.key() == k@ && c.token() == config.putio_oauth_token,
                (None, None) => true,
                _ => false,
            },
            match (config.putio_oauth_token, r.putio_client) {
                (Some(t), Some(c)) => c.token_text() == t@,
                (None, None) => true,
                _ => false,
            },
            r.active_panel == Panel::Search,
            r.query@.len() == 0,
            r.results@.len() == 0,
            r.selected_indexers@ == seq![ALL_INDEXERS],
            r.sort_by == SortMode::Seeders,
            r.sort_cursor == 0,
            r.min_seeds == DEFAULT_MIN_SEEDERS,
            r.filter_nsfw,
            !r.searching,
            !r.sending_to_putio,
            !r.sending_complete,
            r.status_message@ == "Ready"@,
            r.should_animate,
            r.title_scroll_offset == 0,
            r.title_scroll_forward,
            r.layout_cache is None,
            r.marquee_cache.buffer() == banner_text(),
            r.marquee_cache.offset() == 0,
    {
        let chill_client = Self::create_chill_client(&config);
        let putio_client = Self::create_putio_client(&config);
        let sel = vec![ALL_INDEXERS];
        proof {
            assert(sel@ =~= seq![ALL_INDEXERS]);
            assert(sel@.contains(ALL_INDEXERS)) by { assert(sel@[0] == ALL_INDEXERS); }
        }
        App {
            config,
            chill_client,
            putio_client,
            debug,
            query: String::new(),
            active_panel: Panel::Search,
            status_message: String::from_str("Ready"),
            results: Vec::new(),
            selected_index: 0,
            scroll_offset: 0,
            title_scroll_offset: 0,
            title_scroll_forward: true,
            sort_by: SortMode::Seeders,
            sort_cursor: 0,
            selected_indexers: sel,
            min_seeds: DEFAULT_MIN_SEEDERS,
            filter_nsfw: true,
            searching: false,
            sending_to_putio: false,
            sending_complete: false,
            sent_count: 0,
            sent_title: String::new(),
            frame_counter: 0,
            spinner_frame: 0,
            should_animate: true,
            cached_width: 0,
            cached_height: 0,
            layout_cache: None,
            marquee_cache: MarqueeCache::new(
                "+++ ChillTUI - chill.institute but from the terminal! Search for content and press enter to send results to Put.io +++    +++",
            ),
        }
    }

    /// The provider names of the chosen indexes.
    pub fn requested_indexer_names(&self) -> (r: Vec<String>)
        requires
            selection_wf(self.selected_indexers@),
        ensures
            string_views(r@) == requested_indexers(self.selected_indexers@),
    {
        let sel = &self.selected_indexers;
        let mut out: Vec<String> = Vec::new();
        if sel[0] == ALL_INDEXERS {
            proof {
                assert(sel@.contains(ALL_INDEXERS));
            }
            let mut k: usize = 1;
            while k < INDEXER_COUNT
                invariant
                    1 <= k <= INDEXER_COUNT,
                    string_views(out@) == Seq::new((k - 1) as nat, |j: int| indexer_api_name(j + 1)),
                decreases INDEXER_COUNT - k,
            {
                let ghost old_out = out@;
                let name = indexer_api_string(k);
                out.push(name);
                proof {
                    lemma_string_views_push(old_out, name);
                }
                k = k + 1;
                assert(string_views(out@) =~= Seq::new((k - 1) as nat, |j: int| indexer_api_name(j + 1)));
            }
        } else {
            proof {
                if sel@.contains(ALL_INDEXERS) {
                    assert(sel@ == seq![ALL_INDEXERS]);
                    assert(sel@[0] == ALL_INDEXERS);
                }
            }
            let mut k: usize = 0;
            while k < sel.len()
                invariant
                    sel == &self.selected_indexers,
                    selection_wf(sel@),
                    k <= sel@.len(),
                    string_views(out@) == sel@.take(k as int).map_values(|i: usize| indexer_api_name(i as int)),
                decreases sel@.len() - k,
            {
                let ghost old_out = out@;
                let name = indexer_api_string(sel[k]);
                out.push(name);
                proof {
                    lemma_string_views_push(old_out, name);
                    assert(sel@.take(k + 1) =~= sel@.take(k as int).push(sel@[k as int]));
                }
                k = k + 1;
                assert(string_views(out@) =~= sel@.take(k as int).map_values(
                    |i: usize| indexer_api_name(i as int),
                ));
            }
            assert(sel@.take(k as int) =~= sel@);
        }
        out
    }

    /// Starts a search with the current settings, unless the query is empty.
    fn dispatch_search(&mut self) -> (cmd: Command)
        requires
            old(self).wf(),
        ensures
            final(self).wf(),
            search_dispatched(*old(self), *final(self), cmd, old(self).selected_indexers@),
    {
        if self.query.as_str().is_empty() {
            return Command::Continue;
        }
        self.results = Vec::new();
        self.selected_index = 0;
        self.scroll_offset = 0;
        self.title_scroll_offset = 0;
        self.title_scroll_forward = true;
        self.searching = true;
        self.spinner_frame = 0;
        self.should_animate = true;
        self.status_message = String::from_str("Fetching results...");
        if self.chill_client.is_some() {
            let indexers = self.requested_indexer_names();
            Command::Search(
                SearchRequest {
                    query: self.query.clone(),
                    indexers,
                    min_seeders: self.min_seeds,
                    sort_by: self.sort_by,
                    filter_nsfw: self.filter_nsfw,
                },
            )
        } else {
            self.status_message = String::from_str("✗ Chill API key not configured");
            self.searching = false;
            Command::Continue
        }
    }

    /// Sends the marked results, or the highlighted one, to the upload
    /// destination.
    fn dispatch_upload(&mut self) -> (cmd: Command)
        requires
            old(self).wf(),
        ensures
            final(self).wf(),
            upload_dispatched(*old(self), *final(self), cmd),
    {
        let ghost items = upload_items(self.results@, self.selected_index as int);
        let (marked, first) = marked_items(&self.results);
        let mut magnets = marked;
        let mut title = String::new();
        if magnets.len() > 0 {
            match first {
                Some(t) => { title = t; },
                None => {},
            }
        } else if self.selected_index < self.results.len() {
            let current = &self.results[self.selected_index];
            magnets.push(current.magnet.clone());
            title = current.title.clone();
            proof {
                assert(string_views(magnets@) =~= magnets_of(items));
            }
        } else {
            self.status_message = String::from_str("✗ No results available");
            return Command::Continue;
        }
        assert(string_views(magnets@) == magnets_of(items));
        assert(items.len() > 0 && title@ == items[0].title@);
        assert(magnets@.len() == string_views(magnets@).len());
        assert(magnets@.len() == items.len());
        self.sent_count = magnets.len();
        self.sent_title = title;
        self.sending_to_putio = true;
        self.sending_complete = false;
        self.should_animate = true;
        self.query = String::new();
        self.active_panel = Panel::Search;
        if self.putio_client.is_some() {
            self.results = unmarked_copies(&self.results);
            let request = UploadRequest {
                folder_name: self.config.putio_folder_name.clone(),
                folder_id: self.config.putio_folder_id,
                magnets,
            };
            proof {
                assert(same_filters(*old(self), *self));
                assert(same_setup(*old(self), *self));
                assert(string_views(request.magnets@) == magnets_of(items));
                assert(self.sent_count == items.len());
                assert(self.sent_title@ == items[0].title@);
                assert(self.results@ == all_unmarked(old(self).results@));
                assert(self.selected_index == old(self).selected_index);
                assert(self.searching == old(self).searching);
            }
            Command::Upload(request)
        } else {
            self.sending_to_putio = false;
            self.status_message = String::from_str("✗ Put.io not configured");
            proof {
                assert(same_filters(*old(self), *self));
                assert(same_setup(*old(self), *self));
            }
            Command::Continue
        }
    }

    fn handle_search_key(&mut self, key: Key)
        requires
            old(self).wf(),
        ensures
            final(self).wf(),
            search_key_applied(*old(self), *final(self), key),
    {
        match key {
            Key::Char(c) => {
                self.query.push(c);
            },
            Key::Backspace => {
                self.query.pop();
            },
            Key::Up | Key::Down => {
                if self.results.len() > 0 {
                    self.active_panel = Panel::Results;
                } else {
                    self.active_panel = Panel::Filters;
                }
            },
            _ => {},
        }
    }

    /// Applies the row under the Filters cursor.
    fn activate_filter_row(&mut self) -> (cmd: Command)
        requires
            old(self).wf(),
        ensures
            final(self).wf(),
            row_activated(*old(self), *final(self), cmd),
    {
        match filter_row_at(self.sort_cursor) {
            FilterRow::Sort(i) => {
                self.sort_by = sort_option_at(i);
                Command::Continue
            },
            FilterRow::Indexer(i) => {
                self.selected_indexers = toggle_indexer(&self.selected_indexers, i);
                if self.results.len() > 0 && !self.query.as_str().is_empty() {
                    self.dispatch_search()
                } else {
                    Command::Continue
                }
            },
            FilterRow::MinSeeders(i) => {
                self.min_seeds = min_seeder_option_at(i);
                Command::Continue
            },
            FilterRow::Adult(i) => {
                self.filter_nsfw = i == 0;
                Command::Continue
            },
        }
    }

    fn handle_filter_key(&mut self, key: Key) -> (cmd: Command)
        requires
            old(self).wf(),
        ensures
            final(self).wf(),
            filter_key_applied(*old(self), *final(self), key, cmd),
    {
        match key {
            Key::Up => {
                if self.sort_cursor > 0 {
                    self.sort_cursor = self.sort_cursor - 1;
                }
                Command::Continue
            },
            Key::Down => {
                if self.sort_cursor + 1 < FILTER_ROW_COUNT {
                    self.sort_cursor = self.sort_cursor + 1;
                }
                Command::Continue
            },
            Key::Right => {
                self.active_panel = Panel::Results;
                Command::Continue
            },
            Key::Char(c) => {
                if c == ' ' {
                    self.activate_filter_row()
                } else {
                    Command::Continue
                }
            },
            _ => Command::Continue,
        }
    }

    fn highlight_previous(&mut self)
        requires
            old(self).wf(),
        ensures
            final(self).wf(),
            results_key_applied(*old(self), *final(self), Key::Up),
    {
        if self.results.len() > 0 && self.selected_index > 0 {
            self.selected_index = self.selected_index - 1;
            if self.selected_index < self.scroll_offset {
                self.scroll_offset = self.selected_index;
            }
            self.title_scroll_offset = 0;
            self.title_scroll_forward = true;
        } else {
            self.active_panel = Panel::Search;
        }
    }

    fn highlight_next(&mut self)
        requires
            old(self).wf(),
        ensures
            final(self).wf(),
            results_key_applied(*old(self), *final(self), Key::Down),
    {
        if self.results.len() > 0 && self.selected_index + 1 < self.results.len() {
            self.selected_index = self.selected_index + 1;
            let height = self.cached_height.saturating_sub(TABLE_CHROME_ROWS) as usize;
            if self.selected_index >= self.scroll_offset && self.selected_index - self.scroll_offset >= height {
                self.scroll_offset = self.selected_index + 1 - height;
            }
            self.title_scroll_offset = 0;
            self.title_scroll_forward = true;
        }
    }

    fn toggle_mark(&mut self)
        requires
            old(self).wf(),
        ensures
            final(self).wf(),
            results_key_applied(*old(self), *final(self), Key::Char(' ')),
    {
        if self.results.len() > 0 {
            let i = self.selected_index;
            let mut e = self.results.remove(i);
            e.selected = !e.selected;
            self.results.insert(i, e);
            proof {
                assert(self.results@ =~= old(self).results@.update(
                    i as int,
                    TorrentResult { selected: !old(self).results@[i as int].selected, ..old(self).results@[i as int] },
                ));
            }
        }
    }

    fn handle_results_key(&mut self, key: Key)
        requires
            old(self).wf(),
        ensures
            final(self).wf(),
            results_key_applied(*old(self), *final(self), key),
    {
        match key {
            Key::Up => self.highlight_previous(),
            Key::Down => self.highlight_next(),
            Key::Left => {
                self.active_panel = Panel::Filters;
            },
            Key::Char(c) => {
                if c == ' ' {
                    self.toggle_mark();
                }
            },
            _ => {},
        }
    }

    /// Routes one key press.
    pub fn handle_key(&mut self, key: Key) -> (cmd: Command)
        requires
            old(self).wf(),
        ensures
            final(self).wf(),
            key_handled(*old(self), *final(self), key, cmd),
            title_scroll_follows(*old(self), *final(self)),
    {
        match key {
            Key::Esc => Command::Quit,
            Key::Tab => {
                self.active_panel = self.active_panel.next();
                self.status_message = switched_message(self.active_panel);
                Command::Continue
            },
            Key::BackTab => {
                self.active_panel = self.active_panel.previous();
                self.status_message = switched_message(self.active_panel);
                Command::Continue
            },
            Key::Enter => {
                match self.active_panel {
                    Panel::Results => self.dispatch_upload(),
                    _ => self.dispatch_search(),
                }
            },
            _ => {
                match self.active_panel {
                    Panel::Search => {
                        self.handle_search_key(key);
                        Command::Continue
                    },
                    Panel::Filters => self.handle_filter_key(key),
                    Panel::Results => {
                        self.handle_results_key(key);
                        Command::Continue
                    },
                }
            },
        }
    }
    /// Takes in what a search job delivered: its results, focused and
    /// highlighted from the top, or its error in the status line.
    pub fn apply_search_outcome(&mut self, outcome: Result<Vec<TorrentResult>, String>)
        requires
            old(self).wf(),
        ensures
            final(self).wf(),
            title_scroll_follows(*old(self), *final(self)),
            !final(self).searching,
            same_filters(*old(self), *final(self)),
            same_setup(*old(self), *final(self)),
            final(self).query@ == old(self).query@,
            final(self).sending_to_putio == old(self).sending_to_putio,
            final(self).sending_complete == old(self).sending_complete,
            final(self).sent_count == old(self).sent_count,
            final(self).sent_title@ == old(self).sent_title@,
            final(self).spinner_frame == old(self).spinner_frame,
            match outcome {
                Ok(found) => {
                    &&& final(self).results@ == found@
                    &&& final(self).selected_index == 0
                    &&& final(self).scroll_offset == 0
                    &&& final(self).title_scroll_offset == 0
                    &&& final(self).title_scroll_forward
                    &&& final(self).active_panel == Panel::Results
                    &&& final(self).status_message@ == found_text(found@.len())
                    &&& final(self).should_animate
                },
                Err(e) => {
                    &&& same_results(*old(self), *final(self))
                    &&& final(self).active_panel == old(self).active_panel
                    &&& final(self).status_message@ == search_error_text(e@)
                    &&& final(self).should_animate == old(self).should_animate
                },
            },
    {
        match outcome {
            Ok(found) => {
                let mut msg = String::from_str("✓ Found ");
                push_decimal(&mut msg, found.len() as u64);
                push_str(&mut msg, " results");
                self.results = found;
                self.selected_index = 0;
                self.scroll_offset = 0;
                self.title_scroll_offset = 0;
                self.title_scroll_forward = true;
                self.active_panel = Panel::Results;
                self.status_message = msg;
                self.should_animate = true;
            },
            Err(e) => {
                let mut msg = String::from_str("✗ Search error: ");
                push_str(&mut msg, e.as_str());
                self.status_message = msg;
            },
        }
        self.searching = false;
    }

    /// Notes that the upload job finished; answers whether the completion
    /// banner is now shown (and should be dismissed after a while).
    pub fn upload_finished(&mut self) -> (shown: bool)
        requires
            old(self).wf(),
        ensures
            final(self).wf(),
            shown == (old(self).sending_to_putio && !old(self).sending_complete),
            shown ==> (*final(self) == App { sending_complete: true, ..*old(self) }),
            !shown ==> *final(self) == *old(self),
    {
        if self.sending_to_putio && !self.sending_complete {
            self.sending_complete = true;
            true
        } else {
            false
        }
    }

    /// Closes the completion banner and returns focus to the results.
    pub fn upload_dismissed(&mut self)
        requires
            old(self).wf(),
        ensures
            final(self).wf(),
            old(self).sending_to_putio && old(self).sending_complete ==> (*final(self) == App {
                sending_to_putio: false,
                sending_complete: false,
                active_panel: Panel::Results,
                ..*old(self)
            }),
            !(old(self).sending_to_putio && old(self).sending_complete) ==> *final(self) == *old(self),
    {
        if self.sending_to_putio && self.sending_complete {
            self.sending_to_putio = false;
            self.sending_complete = false;
            self.active_panel = Panel::Results;
        }
    }

    /// One animation step: the ticker always moves, the spinner moves while
    /// a job runs, and the highlighted title scrolls while there are
    /// results.
    pub fn update_title_scroll(&mut self)
        requires
            old(self).wf(),
        ensures
            final(self).wf(),
            final(self).marquee_cache.buffer() == old(self).marquee_cache.buffer(),
            final(self).marquee_cache.offset() == advanced(
                old(self).marquee_cache.offset(),
                old(self).marquee_cache.buffer().len(),
            ),
            final(self).spinner_frame == if old(self).searching || old(self).sending_to_putio {
                spun(old(self).spinner_frame)
            } else {
                old(self).spinner_frame
            },
            old(self).results@.len() > 0 ==> (final(self).title_scroll_offset as nat, final(self).title_scroll_forward)
                == title_scroll_step(old(self).title_scroll_offset as nat, old(self).title_scroll_forward),
            old(self).results@.len() == 0 ==> final(self).title_scroll_offset == old(self).title_scroll_offset
                && final(self).title_scroll_forward == old(self).title_scroll_forward,
            same_filters(*old(self), *final(self)),
            final(self).results@ == old(self).results@,
            final(self).selected_index == old(self).selected_index,
            final(self).scroll_offset == old(self).scroll_offset,
            final(self).query@ == old(self).query@,
            final(self).active_panel == old(self).active_panel,
            final(self).status_message@ == old(self).status_message@,
            final(self).searching == old(self).searching,
            final(self).sending_to_putio == old(self).sending_to_putio,
            final(self).sending_complete == old(self).sending_complete,
            final(self).sent_count == old(self).sent_count,
            final(self).sent_title@ == old(self).sent_title@,
            final(self).should_animate == old(self).should_animate,
            final(self).frame_counter == old(self).frame_counter,
            final(self).config == old(self).config,
            final(self).chill_client == old(self).chill_client,
            final(self).putio_client == old(self).putio_client,
            final(self).debug == old(self).debug,
            final(self).cached_width == old(self).cached_width,
            final(self).cached_height == old(self).cached_height,
            final(self).layout_cache == old(self).layout_cache,
    {
        self.marquee_cache.advance();
        if self.searching || self.sending_to_putio {
            self.spinner_frame = self.spinner_frame.wrapping_add(1);
        }
        if self.results.len() > 0 {
            let (offset, forward) = next_title_scroll(self.title_scroll_offset, self.title_scroll_forward);
            self.title_scroll_offset = offset;
            self.title_scroll_forward = forward;
        }
    }

    /// The per-frame animation driver: counts frames while animation is on
    /// and takes an animation step every third frame.
    pub fn tick(&mut self)
        requires
            old(self).wf(),
        ensures
            final(self).wf(),
            final(self).frame_counter == if old(self).should_animate {
                spun(old(self).frame_counter)
            } else {
                old(self).frame_counter
            },
            final(self).selected_index == old(self).selected_index,
            final(self).results@ == old(self).results@,
            final(self).active_panel == old(self).active_panel,
            final(self).marquee_cache.buffer() == old(self).marquee_cache.buffer(),
            !old(self).should_animate ==> *final(self) == *old(self),
            old(self).should_animate && final(self).frame_counter % FRAMES_PER_SCROLL_STEP == 0 ==> {
                &&& final(self).marquee_cache.offset() == advanced(
                    old(self).marquee_cache.offset(),
                    old(self).marquee_cache.buffer().len(),
                )
                &&& old(self).results@.len() > 0 ==> (final(self).title_scroll_offset as nat, final(self).title_scroll_forward)
                    == title_scroll_step(old(self).title_scroll_offset as nat, old(self).title_scroll_forward)
                &&& final(self).spinner_frame == if old(self).searching || old(self).sending_to_putio {
                    spun(old(self).spinner_frame)
                } else {
                    old(self).spinner_frame
                }
            },
            old(self).should_animate && final(self).frame_counter % FRAMES_PER_SCROLL_STEP != 0 ==> (*final(self)
                == App { frame_counter: final(self).frame_counter, ..*old(self) }),
    {
        if self.should_animate {
            self.frame_counter = self.frame_counter.wrapping_add(1);
            if self.frame_counter % FRAMES_PER_SCROLL_STEP == 0 {
                self.update_title_scroll();
            }
        }
    }

    /// Records the terminal size and recomputes the table geometry when the
    /// size differs from the one it was computed for.
    pub fn refresh_layout(&mut self, term_width: u16, term_height: u16)
        requires
            old(self).wf(),
        ensures
            final(self).wf(),
            final(self).cached_width == term_width,
            final(self).cached_height == term_height,
            final(self).layout_cache == Some(layout_for(term_width, term_height, results_panel_x())),
            final(self).results@ == old(self).results@,
            final(self).selected_index == old(self).selected_index,
            final(self).active_panel == old(self).active_panel,
    {
        let size_changed = term_width != self.cached_width || term_height != self.cached_height;
        if size_changed {
            self.cached_width = term_width;
            self.cached_height = term_height;
        }
        if self.layout_cache.is_none() || size_changed {
            self.layout_cache = Some(LayoutCache::new(term_width, term_height, RESULTS_X_OFFSET + MARGIN_X));
        }
    }
}

} // verus!
