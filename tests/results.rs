use chilltui::models::TorrentResult;
use chilltui::search::{filter_min_seeders, process_results, sort_results, title_less, SortMode};

fn entry(title: &str, size: u64, seeders: u32) -> TorrentResult {
    TorrentResult {
        title: title.to_string(),
        indexer: "yts".to_string(),
        size,
        seeders,
        leechers: 0,
        magnet: format!("magnet:?xt={}", title),
        selected: false,
    }
}

fn seeders_of(v: &[TorrentResult]) -> Vec<u32> {
    v.iter().map(|e| e.seeders).collect()
}

#[test]
fn sort_by_seeders_descending() {
    let v = vec![entry("a", 1, 3), entry("b", 1, 1), entry("c", 1, 2)];
    assert_eq!(seeders_of(&sort_results(v, SortMode::Seeders)), vec![3, 2, 1]);
}

#[test]
fn sort_by_size_descending() {
    let v = vec![entry("a", 100, 0), entry("b", 10, 0), entry("c", 50, 0)];
    let sizes: Vec<u64> = sort_results(v, SortMode::Size).iter().map(|e| e.size).collect();
    assert_eq!(sizes, vec![100, 50, 10]);
}

#[test]
fn sort_by_name_ascending() {
    let v = vec![entry("b", 1, 0), entry("a", 1, 0), entry("c", 1, 0)];
    let titles: Vec<String> = sort_results(v, SortMode::Name).into_iter().map(|e| e.title).collect();
    assert_eq!(titles, vec!["a", "b", "c"]);
}

#[test]
fn sort_keeps_order_of_equal_entries() {
    let v = vec![entry("first", 1, 5), entry("x", 1, 9), entry("second", 1, 5), entry("third", 1, 5)];
    let titles: Vec<String> = sort_results(v, SortMode::Seeders).into_iter().map(|e| e.title).collect();
    assert_eq!(titles, vec!["x", "first", "second", "third"]);
}

#[test]
fn name_order_is_by_raw_text() {
    let v = vec![entry("b", 1, 0), entry("B", 1, 0), entry("ab", 1, 0), entry("a", 1, 0)];
    let titles: Vec<String> = sort_results(v, SortMode::Name).into_iter().map(|e| e.title).collect();
    assert_eq!(titles, vec!["B", "a", "ab", "b"]);
    assert!(title_less(&"a".to_string(), &"ab".to_string()));
    assert!(!title_less(&"ab".to_string(), &"ab".to_string()));
    assert!(title_less(&"Z".to_string(), &"a".to_string()));
}

#[test]
fn sort_of_nothing_is_nothing() {
    assert!(sort_results(Vec::new(), SortMode::Name).is_empty());
}

#[test]
fn min_seeders_filter_keeps_order() {
    let v = vec![entry("a", 1, 0), entry("b", 1, 5), entry("c", 1, 10), entry("d", 1, 100)];
    let kept = filter_min_seeders(v, 10);
    let titles: Vec<String> = kept.into_iter().map(|e| e.title).collect();
    assert_eq!(titles, vec!["c", "d"]);
}

#[test]
fn zero_threshold_keeps_everything() {
    let v = vec![entry("a", 1, 0), entry("b", 1, 5)];
    assert_eq!(filter_min_seeders(v, 0).len(), 2);
}

#[test]
fn process_filters_then_sorts() {
    let v = vec![entry("a", 1, 50), entry("b", 1, 2), entry("c", 1, 8), entry("d", 1, 200), entry("e", 1, 10)];
    assert_eq!(seeders_of(&process_results(v, 10, SortMode::Seeders)), vec![200, 50, 10]);
}

#[test]
fn size_text_units() {
    assert_eq!(entry("a", 0, 0).size_str(), "0 B");
    assert_eq!(entry("a", 512, 0).size_str(), "512 B");
    assert_eq!(entry("a", 1023, 0).size_str(), "1023 B");
    assert_eq!(entry("a", 1024, 0).size_str(), "1.00 KiB");
    assert_eq!(entry("a", 1536, 0).size_str(), "1.50 KiB");
    assert_eq!(entry("a", 5 * 1048576, 0).size_str(), "5.00 MiB");
    assert_eq!(entry("a", 1073741824, 0).size_str(), "1.00 GiB");
    assert_eq!(entry("a", 3 * 1073741824 / 2, 0).size_str(), "1.50 GiB");
}

#[test]
fn size_text_rounds_half_to_even() {
    // 1.125 GiB and 1.375 GiB sit exactly between two hundredths.
    assert_eq!(entry("a", 1207959552, 0).size_str(), "1.12 GiB");
    assert_eq!(entry("a", 1476395008, 0).size_str(), "1.38 GiB");
    // 1.005 KiB is not exactly representable in bytes: 1029 B is 1.00488...
    assert_eq!(entry("a", 1029, 0).size_str(), "1.00 KiB");
    assert_eq!(entry("a", 1030, 0).size_str(), "1.01 KiB");
}

#[test]
fn size_text_matches_float_formatting() {
    for size in [1024u64, 1500, 999_999, 1_048_575, 1_048_576, 123_456_789, 9_999_999_999, 1 << 40] {
        let f = size as f64;
        let expected = if f >= 1073741824.0 {
            format!("{:.2} GiB", f / 1073741824.0)
        } else if f >= 1048576.0 {
            format!("{:.2} MiB", f / 1048576.0)
        } else {
            format!("{:.2} KiB", f / 1024.0)
        };
        assert_eq!(entry("a", size, 0).size_str(), expected);
    }
}

#[test]
fn size_text_largest_size() {
    assert_eq!(entry("a", u64::MAX, 0).size_str(), "17179869184.00 GiB");
}

#[test]
fn duplicate_copies_every_field() {
    let mut e = entry("t", 7, 3);
    e.selected = true;
    let d = e.duplicate();
    assert_eq!(d.title, "t");
    assert_eq!(d.size, 7);
    assert_eq!(d.seeders, 3);
    assert!(d.selected);
    assert_eq!(d.magnet, e.magnet);
}
