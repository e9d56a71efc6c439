use chilltui::config::Config;
use chilltui::models::TorrentResult;
use chilltui::panel::{Key, Panel};
use chilltui::search::{process_results, SortMode};
use chilltui::ui::{App, Command};
use chilltui::view::{
    progress_box, seeds_cell, size_cell, source_cell, source_label, source_label_from, status_fill, title_cell,
};

fn config(with_keys: bool) -> Config {
    Config {
        chill_api_key: if with_keys { Some("0123456789".to_string()) } else { None },
        putio_oauth_token: if with_keys { Some("tok".to_string()) } else { None },
        putio_folder_id: Some(77),
        putio_folder_name: "ChillTUI".to_string(),
    }
}

fn entry(title: &str, seeders: u32) -> TorrentResult {
    TorrentResult {
        title: title.to_string(),
        indexer: "thepiratebay".to_string(),
        size: 2048,
        seeders,
        leechers: 1,
        magnet: format!("magnet:{}", title),
        selected: false,
    }
}

fn type_text(app: &mut App, s: &str) {
    for c in s.chars() {
        assert!(matches!(app.handle_key(Key::Char(c)), Command::Continue));
    }
}

fn app_with_results(n: usize) -> App {
    let mut app = App::new(config(true), false);
    let found: Vec<TorrentResult> = (0..n).map(|i| entry(&format!("t{}", i), i as u32)).collect();
    app.apply_search_outcome(Ok(found));
    app
}

#[test]
fn fresh_state() {
    let app = App::new(config(true), false);
    assert_eq!(app.active_panel, Panel::Search);
    assert_eq!(app.status_message, "Ready");
    assert_eq!(app.selected_indexers, vec![0]);
    assert_eq!(app.min_seeds, 10);
    assert_eq!(app.sort_by, SortMode::Seeders);
    assert!(app.chill_client.is_some() && app.putio_client.is_some());
    let bare = App::new(config(false), false);
    assert!(bare.chill_client.is_none() && bare.putio_client.is_none());
}

#[test]
fn tab_cycles_through_three_panels() {
    let mut app = App::new(config(true), false);
    app.handle_key(Key::Tab);
    assert_eq!(app.active_panel, Panel::Filters);
    assert_eq!(app.status_message, "Switched to Filters panel");
    app.handle_key(Key::Tab);
    app.handle_key(Key::Tab);
    assert_eq!(app.active_panel, Panel::Search);
    app.handle_key(Key::Tab);
    assert_eq!(app.active_panel, Panel::Filters);
    app.handle_key(Key::BackTab);
    assert_eq!(app.active_panel, Panel::Search);
    app.handle_key(Key::BackTab);
    assert_eq!(app.active_panel, Panel::Results);
}

#[test]
fn escape_quits_at_once() {
    let mut app = App::new(config(true), false);
    assert!(matches!(app.handle_key(Key::Esc), Command::Quit));
}

#[test]
fn typing_edits_the_query() {
    let mut app = App::new(config(true), false);
    type_text(&mut app, "ubx");
    app.handle_key(Key::Backspace);
    type_text(&mut app, "untu");
    assert_eq!(app.query, "ubuntu");
    let mut empty = App::new(config(true), false);
    empty.handle_key(Key::Backspace);
    assert_eq!(empty.query, "");
}

#[test]
fn arrows_from_search_depend_on_results() {
    let mut app = App::new(config(true), false);
    app.handle_key(Key::Down);
    assert_eq!(app.active_panel, Panel::Filters);
    let mut full = app_with_results(3);
    full.active_panel = Panel::Search;
    full.handle_key(Key::Down);
    assert_eq!(full.active_panel, Panel::Results);
    full.active_panel = Panel::Search;
    full.handle_key(Key::Up);
    assert_eq!(full.active_panel, Panel::Results);
}

#[test]
fn enter_with_empty_query_does_nothing() {
    let mut app = App::new(config(true), false);
    assert!(matches!(app.handle_key(Key::Enter), Command::Continue));
    assert!(!app.searching);
    assert_eq!(app.status_message, "Ready");
}

#[test]
fn enter_without_search_client_reports_it() {
    let mut app = App::new(config(false), false);
    type_text(&mut app, "x");
    assert!(matches!(app.handle_key(Key::Enter), Command::Continue));
    assert!(!app.searching);
    assert_eq!(app.status_message, "✗ Chill API key not configured");
}

#[test]
fn enter_dispatches_a_search_over_all_indexes() {
    let mut app = App::new(config(true), false);
    type_text(&mut app, "ubuntu");
    match app.handle_key(Key::Enter) {
        Command::Search(req) => {
            assert_eq!(req.query, "ubuntu");
            assert_eq!(
                req.indexers,
                vec!["1337x", "eztv", "nyaa.si", "rutracker", "thepiratebay", "therarbg", "Uindex", "yts"]
            );
            assert_eq!(req.min_seeders, 10);
            assert_eq!(req.sort_by, SortMode::Seeders);
            assert!(req.filter_nsfw);
        }
        other => panic!("expected a search, got {:?}", other),
    }
    assert!(app.searching);
    assert_eq!(app.status_message, "Fetching results...");
    assert_eq!(app.progress_message().as_deref(), Some("Fetching |"));
}

#[test]
fn filter_rows_change_settings() {
    let mut app = App::new(config(true), false);
    app.handle_key(Key::Tab);
    app.handle_key(Key::Down);
    app.handle_key(Key::Char(' '));
    assert_eq!(app.sort_by, SortMode::Size);
    for _ in 0..3 {
        app.handle_key(Key::Down);
    }
    app.handle_key(Key::Char(' '));
    assert_eq!(app.selected_indexers, vec![1]);
    for _ in 0..11 {
        app.handle_key(Key::Down);
    }
    app.handle_key(Key::Char(' '));
    assert_eq!(app.min_seeds, 100);
    for _ in 0..10 {
        app.handle_key(Key::Down);
    }
    assert_eq!(app.sort_cursor, 17);
    app.handle_key(Key::Char(' '));
    assert!(!app.filter_nsfw);
    for _ in 0..30 {
        app.handle_key(Key::Up);
    }
    assert_eq!(app.sort_cursor, 0);
    app.handle_key(Key::Right);
    assert_eq!(app.active_panel, Panel::Results);
}

#[test]
fn chosen_indexes_narrow_the_search() {
    let mut app = App::new(config(true), false);
    type_text(&mut app, "q");
    app.handle_key(Key::Tab);
    for _ in 0..8 {
        app.handle_key(Key::Down);
    }
    app.handle_key(Key::Char(' '));
    app.handle_key(Key::Up);
    app.handle_key(Key::Up);
    app.handle_key(Key::Up);
    app.handle_key(Key::Char(' '));
    assert_eq!(app.selected_indexers, vec![5, 2]);
    match app.handle_key(Key::Enter) {
        Command::Search(req) => assert_eq!(req.indexers, vec!["thepiratebay", "eztv"]),
        other => panic!("expected a search, got {:?}", other),
    }
}

#[test]
fn toggling_an_index_with_results_searches_again() {
    let mut app = app_with_results(2);
    app.active_panel = Panel::Search;
    type_text(&mut app, "x");
    app.active_panel = Panel::Filters;
    app.sort_cursor = 4;
    match app.handle_key(Key::Char(' ')) {
        Command::Search(req) => assert_eq!(req.indexers, vec!["1337x"]),
        other => panic!("expected a search, got {:?}", other),
    }
    assert!(app.results.is_empty());
    assert!(app.searching);
}

#[test]
fn search_outcome_fills_the_table() {
    let app = app_with_results(3);
    assert_eq!(app.results.len(), 3);
    assert_eq!(app.active_panel, Panel::Results);
    assert_eq!(app.status_message, "✓ Found 3 results");
    assert!(!app.searching);
    let mut failed = App::new(config(true), false);
    failed.apply_search_outcome(Err("timeout".to_string()));
    assert_eq!(failed.status_message, "✗ Search error: timeout");
    assert_eq!(failed.active_panel, Panel::Search);
}

#[test]
fn moving_the_highlight_restarts_the_title_scroll() {
    let mut app = app_with_results(3);
    app.title_scroll_offset = 7;
    app.title_scroll_forward = false;
    app.handle_key(Key::Down);
    assert_eq!(app.selected_index, 1);
    assert_eq!(app.title_scroll_offset, 0);
    assert!(app.title_scroll_forward);
    app.title_scroll_offset = 12;
    app.title_scroll_forward = false;
    app.handle_key(Key::Up);
    assert_eq!(app.selected_index, 0);
    assert_eq!(app.title_scroll_offset, 0);
    assert!(app.title_scroll_forward);
    app.handle_key(Key::Up);
    assert_eq!(app.active_panel, Panel::Search);
}

#[test]
fn highlight_scrolls_the_table() {
    let mut app = app_with_results(20);
    app.cached_height = 10;
    for _ in 0..5 {
        app.handle_key(Key::Down);
    }
    assert_eq!(app.selected_index, 5);
    assert_eq!(app.scroll_offset, 3);
    for _ in 0..30 {
        app.handle_key(Key::Down);
    }
    assert_eq!(app.selected_index, 19);
    for _ in 0..19 {
        app.handle_key(Key::Up);
    }
    assert_eq!(app.scroll_offset, 0);
    app.handle_key(Key::Left);
    assert_eq!(app.active_panel, Panel::Filters);
}

#[test]
fn upload_of_the_highlighted_entry() {
    let mut app = app_with_results(3);
    app.handle_key(Key::Down);
    match app.handle_key(Key::Enter) {
        Command::Upload(req) => {
            assert_eq!(req.magnets, vec!["magnet:t1"]);
            assert_eq!(req.folder_id, Some(77));
            assert_eq!(req.folder_name, "ChillTUI");
        }
        other => panic!("expected an upload, got {:?}", other),
    }
    assert!(app.sending_to_putio);
    assert_eq!(app.active_panel, Panel::Search);
    assert_eq!(app.progress_message().as_deref(), Some("| Sending 't1' to Put.io"));
    assert!(app.upload_finished());
    assert!(!app.upload_finished());
    assert_eq!(app.progress_message().as_deref(), Some("✓ Sent 't1' to Put.io!"));
    app.upload_dismissed();
    assert!(!app.sending_to_putio);
    assert_eq!(app.active_panel, Panel::Results);
    assert_eq!(app.progress_message(), None);
}

#[test]
fn upload_of_marked_entries() {
    let mut app = app_with_results(4);
    app.handle_key(Key::Char(' '));
    app.handle_key(Key::Down);
    app.handle_key(Key::Down);
    app.handle_key(Key::Char(' '));
    assert!(app.results[0].selected && app.results[2].selected);
    match app.handle_key(Key::Enter) {
        Command::Upload(req) => assert_eq!(req.magnets, vec!["magnet:t0", "magnet:t2"]),
        other => panic!("expected an upload, got {:?}", other),
    }
    assert!(app.results.iter().all(|e| !e.selected));
    assert_eq!(app.progress_message().as_deref(), Some("| Sending 2 files to Put.io"));
    app.upload_finished();
    assert_eq!(app.progress_message().as_deref(), Some("✓ Sent 2 files to Put.io!"));
}

#[test]
fn upload_without_results_or_client() {
    let mut app = App::new(config(true), false);
    app.active_panel = Panel::Results;
    assert!(matches!(app.handle_key(Key::Enter), Command::Continue));
    assert_eq!(app.status_message, "✗ No results available");
    let mut bare = App::new(config(false), false);
    bare.apply_search_outcome(Ok(vec![entry("a", 1)]));
    assert!(matches!(bare.handle_key(Key::Enter), Command::Continue));
    assert_eq!(bare.status_message, "✗ Put.io not configured");
    assert!(!bare.sending_to_putio);
}

#[test]
fn animation_ticks() {
    let mut app = app_with_results(1);
    let before = app.marquee_cache.render(5);
    app.tick();
    app.tick();
    assert_eq!(app.marquee_cache.render(5), before);
    app.tick();
    assert_ne!(app.marquee_cache.render(5), before);
    assert_eq!(app.title_scroll_offset, 1);
    assert_eq!(app.frame_counter, 3);
}

#[test]
fn layout_is_recomputed_for_new_sizes() {
    let mut app = App::new(config(true), false);
    app.refresh_layout(120, 40);
    assert_eq!(app.layout_cache.unwrap().title_width, 47);
    app.refresh_layout(100, 40);
    assert_eq!(app.layout_cache.unwrap().terminal_width, 100);
    assert_eq!((app.cached_width, app.cached_height), (100, 40));
}

#[test]
fn end_to_end_search_shows_best_seeded_first() {
    let mut app = App::new(config(true), false);
    type_text(&mut app, "ubuntu");
    let req = match app.handle_key(Key::Enter) {
        Command::Search(req) => req,
        other => panic!("expected a search, got {:?}", other),
    };
    let seeders = [50u32, 2, 8, 200, 10, 9, 75, 0, 11, 300, 1, 42];
    let found: Vec<TorrentResult> = seeders.iter().enumerate().map(|(i, &s)| entry(&format!("ubuntu-{}", i), s)).collect();
    assert_eq!(found.len(), 12);
    app.apply_search_outcome(Ok(process_results(found, req.min_seeders, req.sort_by)));
    app.refresh_layout(120, 40);
    let rows = app.visible_rows(38);
    let shown: Vec<u32> = app.results.iter().map(|e| e.seeders).collect();
    assert!(shown.iter().all(|&s| s >= 10));
    assert_eq!(shown, vec![300, 200, 75, 50, 42, 11, 10]);
    assert_eq!(rows.len(), 7);
    assert_eq!(rows[0].seeds.trim(), "300");
    assert!(rows[0].highlighted);
}

#[test]
fn table_cells() {
    assert_eq!(title_cell(&"abc".to_string(), 5, false, 0), "abc  ");
    assert_eq!(title_cell(&"abcdefgh".to_string(), 5, false, 0), "ab...");
    assert_eq!(title_cell(&"abcdefgh".to_string(), 5, true, 0), "abcde");
    assert_eq!(title_cell(&"abcdefgh".to_string(), 5, true, 6), "gh   ");
    assert_eq!(title_cell(&"abcdefgh".to_string(), 5, true, 10), "  abc");
    assert_eq!(title_cell(&"abcdefgh".to_string(), 2, false, 0), "...");
    let e = entry("x", 42);
    assert_eq!(size_cell(&e), "    2.00 KiB");
    assert_eq!(seeds_cell(&e), " 42  ");
    assert_eq!(seeds_cell(&entry("x", 123456)), "123456");
}

#[test]
fn source_labels() {
    assert_eq!(source_label(&"The Pirate Bay".to_string()), "TPB");
    assert_eq!(source_label(&"RuTracker.org".to_string()), "RUtracker");
    assert_eq!(source_label(&"eztv".to_string()), "EZTV");
    assert_eq!(source_label(&"therarbg".to_string()), "RARBG");
    assert_eq!(source_label(&"yts".to_string()), "YTS");
    assert_eq!(source_label(&"nyaa.si".to_string()), "nyaa.si");
    assert_eq!(source_label_from(&"X".to_string(), &"xrutrackerx".to_string()), "RUtracker");
    assert_eq!(source_label_from(&"rutracker".to_string(), &"other".to_string()), "rutracker");
    assert_eq!(source_cell(&"TPB".to_string()), "TPB       ");
    assert_eq!(source_cell(&"averylongindexname".to_string()), "averylo...");
}

#[test]
fn filter_panel_lines() {
    let mut app = App::new(config(true), false);
    app.active_panel = Panel::Filters;
    let lines = app.filter_lines();
    assert_eq!(lines.len(), 18);
    assert_eq!(lines[0].text, format!("{:<17}", "● Seeders"));
    assert_eq!(lines[1].text, format!("{:<17}", "○ Size"));
    assert_eq!(lines[3].text, format!("{:<17}", "[✓] all"));
    assert_eq!(lines[4].text, format!("{:<17}", "[ ] 1337x"));
    assert_eq!(lines[14].text, format!("{:<17}", "● 10 seeds"));
    assert_eq!(lines[16].text, format!("{:<17}", "● Filter NSFW"));
    assert_eq!(lines[17].text, format!("{:<17}", "○ Allow NSFW"));
    assert!(lines[0].at_cursor && lines[0].chosen);
    assert!(!lines[1].at_cursor && !lines[1].chosen);
}

#[test]
fn table_window_and_paddings() {
    let app = app_with_results(30);
    let w = app.table_window(20);
    assert_eq!((w.first, w.end, w.more_above, w.more_below), (0, 11, false, true));
    let small = app_with_results(3).table_window(40);
    assert_eq!((small.end, small.more_below), (3, false));
    assert_eq!(app.result_count_text(), "30 results");
    assert_eq!(App::new(config(true), false).result_count_text(), "");
    assert_eq!(status_fill(100, 10), 12);
    assert_eq!(status_fill(50, 10), 0);
    let b = progress_box(24, 4, 120, 38, 10);
    assert_eq!((b.x, b.y, b.width, b.left_pad, b.right_pad), (24 + 40, 4 + 13, 14, 1, 1));
}

#[test]
fn search_bar_padding() {
    let mut app = App::new(config(true), false);
    type_text(&mut app, "abc");
    assert_eq!(app.search_bar_fill(1, 100), 100 - 1 - 12 - 3 - 1);
    app.handle_key(Key::Tab);
    assert_eq!(app.search_bar_fill(1, 100), 100 - 1 - 12 - 3);
    assert_eq!(app.search_bar_fill(1, 5), 0);
}
