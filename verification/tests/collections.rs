use ui::components::inspect::{History, FRAME_HISTORY_LEN, OUTPUT_EVENTS_LEN};
use ui::order::{collect_flags, sort_by_names, sort_positions_asc, sort_positions_desc};
use ui::string_set::StringSet;
use ui::text::chars_of;

#[test]
fn string_set_keeps_each_string_once() {
    let mut set = StringSet::new();
    assert_eq!(set.len(), 0);
    assert!(set.insert("a".to_string()));
    assert!(!set.insert("a".to_string()));
    assert!(set.insert("b".to_string()));
    assert_eq!(set.len(), 2);
    assert!(set.contains("a"));
    assert!(set.remove("a"));
    assert!(!set.remove("a"));
    assert!(!set.contains("a"));
    set.toggle("c".to_string());
    assert!(set.contains("c"));
    set.toggle("c".to_string());
    assert!(!set.contains("c"));
    assert_eq!(set.drain(), vec!["b".to_string()]);
    assert_eq!(set.len(), 0);
    set.insert("x".to_string());
    set.clear();
    assert!(!set.contains("x"));
}

#[test]
fn flags_to_positions() {
    assert_eq!(collect_flags(&vec![false, true, true, false, true]), vec![1, 2, 4]);
    assert_eq!(collect_flags(&vec![]), Vec::<usize>::new());
}

#[test]
fn stable_sorts() {
    assert_eq!(sort_positions_desc(&vec![5, 9, 5, 1]), vec![1, 0, 2, 3]);
    assert_eq!(sort_positions_asc(&vec![5, 9, 5, 1]), vec![3, 0, 2, 1]);
    let keys = vec![chars_of("b"), chars_of("a"), chars_of("b"), chars_of("c")];
    assert_eq!(sort_by_names(&keys, &vec![0, 1, 2, 3]), vec![1, 0, 2, 3]);
    assert_eq!(sort_by_names(&keys, &vec![2, 3]), vec![2, 3]);
}

#[test]
fn history_keeps_the_newest() {
    let mut h: History<u32> = History::new(3);
    assert!(h.is_empty());
    for i in 0..5 {
        h.record(i);
    }
    assert_eq!(h.len(), 3);
    let items: Vec<u32> = h.items().iter().copied().collect();
    assert_eq!(items, vec![2, 3, 4]);
    h.clear();
    assert!(h.is_empty());
    let mut events: History<String> = History::new(OUTPUT_EVENTS_LEN);
    for i in 0..40 {
        events.record(format!("e{i}"));
    }
    assert_eq!(events.len(), 32);
    assert_eq!(events.items().front().unwrap(), "e8");
    assert_eq!(FRAME_HISTORY_LEN, 120);
}
