use todo_list::selector::ListSelector;

#[test]
fn new_selector_has_no_selection() {
    let s = ListSelector::new();
    assert_eq!(s.selected(), None);
}

#[test]
fn scrolling_an_empty_collection_is_a_noop() {
    let mut s = ListSelector::new();
    s.scroll_down(1, 0);
    assert_eq!(s.selected(), None);
    s.scroll_up(1, 0);
    assert_eq!(s.selected(), None);
}

#[test]
fn scroll_down_clamps_at_the_last_index() {
    let mut s = ListSelector::new();
    s.reclamp(3);
    assert_eq!(s.selected(), Some(0));
    s.scroll_down(1, 3);
    assert_eq!(s.selected(), Some(1));
    s.scroll_down(5, 3);
    assert_eq!(s.selected(), Some(2));
}

#[test]
fn scroll_up_saturates_at_the_front() {
    let mut s = ListSelector::new();
    s.reclamp(3);
    s.scroll_down(2, 3);
    assert_eq!(s.selected(), Some(2));
    s.scroll_up(1, 3);
    assert_eq!(s.selected(), Some(1));
    s.scroll_up(7, 3);
    assert_eq!(s.selected(), Some(0));
}

#[test]
fn reclamp_clears_on_empty_and_clamps_on_shrink() {
    let mut s = ListSelector::new();
    s.reclamp(5);
    s.scroll_down(4, 5);
    assert_eq!(s.selected(), Some(4));
    s.reclamp(2);
    assert_eq!(s.selected(), Some(1));
    s.reclamp(0);
    assert_eq!(s.selected(), None);
}
