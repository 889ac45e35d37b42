use openbangla_ime::layout::{
    index_label, index_labels, is_ascii_text, layout, place_items, Extent, ItemMetrics, Rect,
};
use openbangla_ime::candidate_list::CandidateList;

fn item(index_width: u32, candidate_width: u32, height: u32) -> ItemMetrics {
    ItemMetrics {
        index: Extent { width: index_width, height: height - 4 },
        candidate: Extent { width: candidate_width, height },
    }
}

fn three_items() -> Vec<ItemMetrics> {
    vec![item(10, 30, 20), item(10, 34, 24), item(10, 36, 22)]
}

#[test]
fn horizontal_width_is_clip_plus_every_item() {
    let lay = layout(&three_items(), false, 0);
    // 3 + (5 + 10 + 6 + 30 + 6) + (5 + 10 + 6 + 34 + 6) + (5 + 10 + 6 + 36 + 6)
    assert_eq!(lay.width, 184);
    assert_eq!(lay.row_height, 24);
    assert_eq!(lay.label_height, 32);
    assert_eq!(lay.height, 32);
    assert_eq!(lay.index_width, 10);
}

#[test]
fn horizontal_highlight_tracks_the_item() {
    let lay = layout(&three_items(), false, 1);
    assert_eq!(lay.highlight, Rect { left: 60, top: 0, width: 61, height: 32 });
    assert_eq!(lay.clip, Rect { left: 0, top: 0, width: 3, height: 32 });
    let lay = layout(&three_items(), false, 2);
    assert_eq!(lay.highlight, Rect { left: 121, top: 0, width: 63, height: 32 });
}

#[test]
fn vertical_width_is_floored_by_height() {
    let lay = layout(&three_items(), true, 2);
    assert_eq!(lay.height, 96);
    // the widest row is 3 + 5 + 10 + 6 + 36 + 6 = 66; four fifths of 96 rounds up to 77
    assert_eq!(lay.width, 77);
    assert_eq!(lay.highlight, Rect { left: 3, top: 64, width: 74, height: 32 });
    assert_eq!(lay.clip, Rect { left: 0, top: 64, width: 3, height: 32 });
}

#[test]
fn vertical_width_follows_widest_item() {
    let lay = layout(&vec![item(12, 200, 20)], true, 0);
    assert_eq!(lay.height, 28);
    assert_eq!(lay.width, 3 + 5 + 12 + 6 + 200 + 6);
}

#[test]
fn items_are_placed_side_by_side() {
    let candidates = vec!["ami".to_string(), "আমি".to_string(), "amii".to_string()];
    let metrics = three_items();
    let lay = layout(&metrics, false, 1);
    let items = place_items(&candidates, &metrics, &lay, false, 1);
    assert_eq!(items.len(), 3);
    assert_eq!(items[0].label, Rect { left: 8, top: 4, width: 20, height: 24 });
    assert_eq!(items[0].candidate, Rect { left: 24, top: 1, width: 40, height: 24 });
    assert_eq!(items[1].label, Rect { left: 65, top: 4, width: 20, height: 24 });
    assert_eq!(items[1].candidate, Rect { left: 81, top: 4, width: 44, height: 24 });
    assert!(!items[0].highlighted);
    assert!(items[1].highlighted);
    assert!(!items[2].highlighted);
}

#[test]
fn items_are_stacked_in_a_column() {
    let candidates = vec!["ami".to_string(), "আমি".to_string(), "amii".to_string()];
    let metrics = three_items();
    let lay = layout(&metrics, true, 0);
    let items = place_items(&candidates, &metrics, &lay, true, 0);
    assert_eq!(items[2].label, Rect { left: 8, top: 68, width: 20, height: 24 });
    assert_eq!(items[2].candidate, Rect { left: 24, top: 65, width: 46, height: 24 });
    assert_eq!(items[1].candidate.top, 36);
}

#[test]
fn labels_count_from_one() {
    assert_eq!(index_label(0), "1.");
    assert_eq!(index_label(8), "9.");
    assert_eq!(index_labels(3), vec!["1.", "2.", "3."]);
    assert!(index_labels(0).is_empty());
}

#[test]
fn ascii_text_is_recognised() {
    assert!(is_ascii_text("amii"));
    assert!(is_ascii_text(""));
    assert!(!is_ascii_text("আমি"));
    assert!(!is_ascii_text("ami😀"));
}

#[test]
fn repaint_snapshots_the_list() {
    let mut list = CandidateList::new();
    assert!(list.repaint(&Vec::new(), false).is_none());
    list.show(&vec!["ami".to_string(), "aami".to_string(), "amii".to_string()]);
    list.move_highlight_next();
    let arg = list.repaint(&three_items(), false).unwrap();
    assert_eq!(arg.highlighted_index, 1);
    assert_eq!(arg.layout.width, 184);
    assert_eq!(arg.layout.highlight.left, 60);
    assert_eq!(arg.labels, vec!["1.", "2.", "3."]);
    assert_eq!(arg.candidates, vec!["ami", "aami", "amii"]);
    assert!(arg.items[1].highlighted);
}

#[test]
fn same_inputs_paint_the_same_geometry() {
    let mut list = CandidateList::new();
    list.show(&vec!["ami".to_string(), "aami".to_string(), "amii".to_string()]);
    let a = list.repaint(&three_items(), true).unwrap();
    let b = list.repaint(&three_items(), true).unwrap();
    assert_eq!(a.layout, b.layout);
    assert_eq!(a.items, b.items);
}
