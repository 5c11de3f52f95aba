use notes::paging::{page_count, page_offset, view_visibility, Pager, PAGE_SIZE};

#[test]
fn page_count_rounds_up() {
    assert_eq!(page_count(0), 0);
    assert_eq!(page_count(1), 1);
    assert_eq!(page_count(20), 1);
    assert_eq!(page_count(21), 2);
    assert_eq!(page_count(40), 2);
    assert_eq!(page_count(100), 5);
    assert_eq!(page_count(101), 6);
}

#[test]
fn page_offset_of_pages() {
    assert_eq!(PAGE_SIZE, 20);
    assert_eq!(page_offset(1), 0);
    assert_eq!(page_offset(2), 20);
    assert_eq!(page_offset(5), 80);
}

#[test]
fn every_row_on_one_page() {
    for count in 0..130i64 {
        let total = page_count(count);
        for row in 0..count {
            let pages: Vec<i64> = (1..=total)
                .filter(|p| page_offset(*p) <= row && row < page_offset(*p) + 20)
                .collect();
            assert_eq!(pages, vec![row / 20 + 1]);
        }
        for p in 1..=total {
            assert!(page_offset(p) < count);
        }
    }
}

#[test]
fn new_pager_is_page_one_of_one() {
    let p = Pager::new();
    assert_eq!((p.cur_page, p.total_page), (1, 1));
}

#[test]
fn next_then_prev_returns() {
    let mut p = Pager { cur_page: 2, total_page: 5 };
    let u = p.next_page();
    assert_eq!((p.cur_page, p.total_page), (3, 5));
    assert_eq!(u.prev_sensitive, Some(true));
    assert_eq!(u.next_sensitive, None);
    let u = p.prev_page();
    assert_eq!((p.cur_page, p.total_page), (2, 5));
    assert_eq!(u.prev_sensitive, None);
    assert_eq!(u.next_sensitive, Some(true));
}

#[test]
fn next_to_last_page_disables_next() {
    let mut p = Pager { cur_page: 4, total_page: 5 };
    let u = p.next_page();
    assert_eq!(p.cur_page, 5);
    assert_eq!(u.next_sensitive, Some(false));
    assert_eq!(u.prev_sensitive, Some(true));
}

#[test]
fn prev_to_first_page_disables_prev() {
    let mut p = Pager { cur_page: 2, total_page: 5 };
    let u = p.prev_page();
    assert_eq!(p.cur_page, 1);
    assert_eq!(u.prev_sensitive, Some(false));
    assert_eq!(u.next_sensitive, Some(true));
}

#[test]
fn prev_onto_last_page_leaves_next() {
    let mut p = Pager { cur_page: 3, total_page: 2 };
    let u = p.prev_page();
    assert_eq!(p.cur_page, 2);
    assert_eq!(u.next_sensitive, None);
    assert_eq!(u.prev_sensitive, None);
}

#[test]
fn count_on_first_page_with_many_notes() {
    let mut p = Pager::new();
    let u = p.apply_count(Some(100));
    assert_eq!((p.cur_page, p.total_page), (1, 5));
    assert!(u.show_all_visible);
    assert_eq!(u.info_label.as_deref(), Some("1/5"));
    assert_eq!(u.prev_sensitive, Some(false));
    assert_eq!(u.next_sensitive, Some(true));
}

#[test]
fn count_with_one_page() {
    let mut p = Pager::new();
    let u = p.apply_count(Some(20));
    assert_eq!(p.total_page, 1);
    assert!(!u.show_all_visible);
    assert_eq!(u.info_label, None);
    assert_eq!(u.prev_sensitive, Some(false));
    assert_eq!(u.next_sensitive, Some(false));
}

#[test]
fn count_with_no_notes() {
    let mut p = Pager::new();
    let u = p.apply_count(Some(0));
    assert_eq!(p.total_page, 0);
    assert!(!u.show_all_visible);
    assert_eq!(u.next_sensitive, Some(false));
}

#[test]
fn count_on_later_page_leaves_buttons() {
    let mut p = Pager { cur_page: 3, total_page: 1 };
    let u = p.apply_count(Some(45));
    assert_eq!((p.cur_page, p.total_page), (3, 3));
    assert_eq!(u.info_label.as_deref(), Some("3/3"));
    assert_eq!(u.prev_sensitive, None);
    assert_eq!(u.next_sensitive, None);
}

#[test]
fn failed_count_changes_nothing() {
    let mut p = Pager { cur_page: 1, total_page: 4 };
    let u = p.apply_count(None);
    assert_eq!((p.cur_page, p.total_page), (1, 4));
    assert!(!u.show_all_visible);
    assert_eq!(u.info_label, None);
    assert_eq!(u.prev_sensitive, None);
    assert_eq!(u.next_sensitive, None);
}

#[test]
fn write_resets_pager() {
    let mut p = Pager { cur_page: 3, total_page: 4 };
    assert!(!p.after_write(false));
    assert_eq!((p.cur_page, p.total_page), (3, 4));
    assert!(p.after_write(true));
    assert_eq!((p.cur_page, p.total_page), (1, 1));
    p.cur_page = 7;
    p.reset();
    assert_eq!((p.cur_page, p.total_page), (1, 1));
}

#[test]
fn visibility_of_list() {
    let v = view_visibility(0);
    assert!(!v.list_visible && v.status_visible);
    let v = view_visibility(3);
    assert!(v.list_visible && !v.status_visible);
}

#[test]
fn buttons_follow_pages() {
    // Buttons as the user sees them, starting from arbitrary states.
    let mut prev = true;
    let mut next = false;
    let mut p = Pager::new();
    let u = p.apply_count(Some(45));
    prev = u.prev_sensitive.unwrap_or(prev);
    next = u.next_sensitive.unwrap_or(next);
    assert_eq!((p.cur_page, p.total_page, prev, next), (1, 3, false, true));
    let mut pressed = Vec::new();
    for forward in [true, true, false, false] {
        let u = if forward { p.next_page() } else { p.prev_page() };
        prev = u.prev_sensitive.unwrap_or(prev);
        next = u.next_sensitive.unwrap_or(next);
        pressed.push((p.cur_page, prev, next));
        assert_eq!(prev, p.cur_page > 1);
        assert_eq!(next, p.cur_page < p.total_page);
    }
    assert_eq!(pressed, vec![(2, true, true), (3, true, false), (2, true, true), (1, false, true)]);
}

#[test]
fn negative_count_rounds_toward_zero() {
    assert_eq!(page_count(-1), 0);
    assert_eq!(page_count(-20), -1);
    assert_eq!(page_count(-45), -2);
    let mut p = Pager::new();
    let u = p.apply_count(Some(-45));
    assert_eq!(p.total_page, -2);
    assert!(!u.show_all_visible);
    assert_eq!(u.prev_sensitive, Some(false));
    assert_eq!(u.next_sensitive, Some(false));
}
