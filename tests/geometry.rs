use chilltui::layout::LayoutCache;
use chilltui::mailbox::Mailbox;
use chilltui::marquee::{next_title_scroll, MarqueeCache};
use chilltui::upload::{UploadPlan, UploadStep};

#[test]
fn layout_for_wide_terminal() {
    let g = LayoutCache::new(120, 40, 24);
    assert_eq!(g.right_border_column, 118);
    assert_eq!(g.source_column, 108);
    assert_eq!(g.seeds_column, 100);
    assert_eq!(g.size_column, 85);
    assert_eq!(g.separator_column, 82);
    assert_eq!(g.title_width, 82 - 35);
    assert_eq!((g.terminal_width, g.terminal_height), (120, 40));
}

#[test]
fn layout_columns_do_not_overlap_at_minimum_width() {
    let results_x = 24u16;
    let g = LayoutCache::new(results_x + 49, 30, results_x);
    let title_end = results_x as usize + 11 + g.title_width;
    assert!(title_end <= g.separator_column as usize);
    assert!(g.separator_column < g.size_column);
    assert!((g.size_column as usize + 12) < g.seeds_column as usize);
    assert!((g.seeds_column as usize + 5) < g.source_column as usize);
    assert!(g.source_column as usize + 10 <= g.right_border_column);
}

#[test]
fn layout_saturates_on_narrow_terminal() {
    let g = LayoutCache::new(10, 5, 24);
    assert_eq!(g.title_width, 0);
    assert_eq!(g.separator_column, 0);
    assert_eq!(g.size_column, 0);
    assert_eq!(g.right_border_column, 8);
    let zero = LayoutCache::new(0, 0, 24);
    assert_eq!(zero.right_border_column, 0);
}

#[test]
fn layout_needs_update_only_on_size_change() {
    let g = LayoutCache::new(80, 24, 24);
    assert!(!g.needs_update(80, 24));
    assert!(g.needs_update(81, 24));
    assert!(g.needs_update(80, 25));
}

#[test]
fn marquee_reads_cyclically() {
    let mut m = MarqueeCache::new("abcd");
    assert_eq!(m.render(2), "ab");
    m.advance();
    m.advance();
    m.advance();
    assert_eq!(m.render(3), "dab");
    assert_eq!(m.render(6), "dabcda");
}

#[test]
fn marquee_full_period_returns_to_start() {
    let mut m = MarqueeCache::new("héllo");
    let before = m.render(5);
    for _ in 0..5 {
        m.advance();
    }
    assert_eq!(m.render(5), before);
    assert_eq!(m.render(4).chars().count(), 4);
}

#[test]
fn empty_marquee_renders_nothing() {
    let mut m = MarqueeCache::new("");
    m.advance();
    assert_eq!(m.render(10), "");
}

#[test]
fn title_scroll_goes_out_and_back() {
    let mut state = (0usize, true);
    let mut offsets = Vec::new();
    for _ in 0..45 {
        state = next_title_scroll(state.0, state.1);
        offsets.push(state.0);
    }
    assert_eq!(offsets[18], 19);
    assert_eq!(offsets[19], 20);
    assert!(!next_title_scroll(19, true).1);
    assert_eq!(offsets[20], 19);
    assert_eq!(offsets[39], 0);
    assert_eq!(offsets[40], 0);
    assert_eq!(offsets[41], 1);
    assert!(offsets.iter().all(|&o| o <= 20));
}

#[test]
fn mailbox_delivers_once() {
    let mut m: Mailbox<u32> = Mailbox::new();
    assert!(!m.is_full());
    assert_eq!(m.take(), None);
    assert!(m.offer(7).is_ok());
    assert!(m.is_full());
    assert_eq!(m.offer(8), Err(8));
    assert_eq!(m.take(), Some(7));
    assert_eq!(m.take(), None);
    assert_eq!(m.take(), None);
    assert!(m.offer(9).is_ok());
    assert_eq!(m.take(), Some(9));
}

#[test]
fn upload_plan_resolves_folder_then_submits_in_order() {
    let mut plan = UploadPlan::new(None, 2);
    assert_eq!(plan.step(), UploadStep::ResolveFolder);
    plan.folder_resolved(Some(9));
    assert_eq!(plan.step(), UploadStep::Submit { index: 0, folder: 9 });
    plan.item_done();
    assert_eq!(plan.step(), UploadStep::Submit { index: 1, folder: 9 });
    plan.item_done();
    assert_eq!(plan.step(), UploadStep::Finished);
}

#[test]
fn upload_plan_with_known_folder_or_failed_lookup() {
    let known = UploadPlan::new(Some(4), 1);
    assert_eq!(known.step(), UploadStep::Submit { index: 0, folder: 4 });
    let mut lost = UploadPlan::new(None, 3);
    lost.folder_resolved(None);
    assert_eq!(lost.step(), UploadStep::Abandoned);
    assert_eq!(UploadPlan::new(Some(1), 0).step(), UploadStep::Finished);
}
