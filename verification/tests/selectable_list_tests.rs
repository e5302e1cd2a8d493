use task_viewer::selectable_list::SelectableList;

fn list_of(n: usize) -> SelectableList<String> {
    let mut items: Vec<String> = Vec::new();
    for i in 0..n {
        items.push(format!("item {}", i));
    }
    SelectableList::new(items)
}

#[test]
fn new_starts_without_cursor() {
    let l = list_of(3);
    assert_eq!(l.selected, None);
    assert_eq!(l.len(), 3);
}

#[test]
fn new_accepts_empty() {
    let l = list_of(0);
    assert_eq!(l.selected, None);
    assert_eq!(l.len(), 0);
}

#[test]
fn next_advances_modulo_len() {
    let mut l = list_of(3);
    l.next();
    assert_eq!(l.selected, Some(0));
    l.next();
    assert_eq!(l.selected, Some(1));
    l.next();
    assert_eq!(l.selected, Some(2));
    l.next();
    assert_eq!(l.selected, Some(0));
}

#[test]
fn previous_retreats_modulo_len() {
    let mut l = list_of(3);
    l.previous();
    assert_eq!(l.selected, Some(0));
    l.previous();
    assert_eq!(l.selected, Some(2));
    l.previous();
    assert_eq!(l.selected, Some(1));
    l.previous();
    assert_eq!(l.selected, Some(0));
}

#[test]
fn singleton_always_wraps_to_itself() {
    let mut l = list_of(1);
    l.next();
    assert_eq!(l.selected, Some(0));
    l.next();
    assert_eq!(l.selected, Some(0));
    l.previous();
    assert_eq!(l.selected, Some(0));
    l.previous();
    assert_eq!(l.selected, Some(0));
}

#[test]
fn navigation_on_empty_is_a_no_op() {
    let mut l = list_of(0);
    l.next();
    assert_eq!(l.selected, None);
    l.previous();
    assert_eq!(l.selected, None);
}

#[test]
fn navigation_keeps_items() {
    let mut l = list_of(2);
    l.next();
    l.previous();
    assert_eq!(l.items, vec!["item 0".to_string(), "item 1".to_string()]);
    assert_eq!(l.selected_index(), Some(1));
}
