use intui_tabs::TabsState;

#[derive(Copy, Clone, Debug, PartialEq)]
enum Page {
    Main,
    Settings,
    About,
}

fn pages() -> TabsState<Page> {
    TabsState::new(vec![Page::Main, Page::Settings, Page::About])
}

#[test]
fn new_selects_first_tab() {
    let s = pages();
    assert_eq!(s.current_index(), 0);
    assert_eq!(s.current(), Some(Page::Main));
    assert_eq!(s.tabs(), &vec![Page::Main, Page::Settings, Page::About]);
}

#[test]
fn next_steps_then_stays_on_last() {
    let mut s = pages();
    s.next();
    assert_eq!(s.current_index(), 1);
    assert_eq!(s.current(), Some(Page::Settings));
    s.next();
    assert_eq!(s.current_index(), 2);
    assert_eq!(s.current(), Some(Page::About));
    s.next();
    assert_eq!(s.current_index(), 2);
    assert_eq!(s.current(), Some(Page::About));
}

#[test]
fn next_many_times_clamps_at_last() {
    for n in 1..12usize {
        let mut s = TabsState::new((0..n).collect::<Vec<usize>>());
        for _ in 0..n + 5 {
            s.next();
        }
        assert_eq!(s.current_index(), n - 1);
        assert_eq!(s.current(), Some(n - 1));
    }
}

#[test]
fn next_after_overshoot_returns_to_last() {
    let mut s = pages();
    s.set(9);
    s.next();
    assert_eq!(s.current_index(), 2);
}

#[test]
fn prev_saturates_at_zero() {
    let mut s = pages();
    s.prev();
    assert_eq!(s.current_index(), 0);
    s.set(3);
    s.prev();
    assert_eq!(s.current_index(), 1);
    for _ in 0..10 {
        s.prev();
    }
    assert_eq!(s.current_index(), 0);
    assert_eq!(s.current(), Some(Page::Main));
}

#[test]
fn prev_from_large_index_reaches_zero() {
    let mut s = TabsState::new(vec![1u8, 2]);
    s.set(usize::MAX);
    assert_eq!(s.current_index(), usize::MAX - 1);
    s.prev();
    assert_eq!(s.current_index(), usize::MAX - 2);
}

#[test]
fn set_zero_selects_first() {
    let mut s = pages();
    s.next();
    s.set(0);
    assert_eq!(s.current_index(), 0);
    assert_eq!(s.current(), Some(Page::Main));
}

#[test]
fn set_in_range_is_one_based() {
    let mut s = pages();
    for k in 1..=3usize {
        s.set(k);
        assert_eq!(s.current_index(), k - 1);
    }
}

#[test]
fn set_past_end_reads_last_tab() {
    let mut s = pages();
    s.set(4);
    assert_eq!(s.current_index(), 3);
    assert_eq!(s.current(), Some(Page::About));
    s.set(usize::MAX);
    assert_eq!(s.current(), Some(Page::About));
}

#[test]
fn set_two_then_current_is_second() {
    let mut s = TabsState::new(vec!["A", "B", "C"]);
    s.set(2);
    assert_eq!(s.current(), Some("B"));
}

#[test]
fn empty_list_has_no_current_and_does_not_move() {
    let mut s: TabsState<Page> = TabsState::new(vec![]);
    assert_eq!(s.current(), None);
    s.next();
    assert_eq!(s.current_index(), 0);
    s.prev();
    assert_eq!(s.current_index(), 0);
    assert_eq!(s.current(), None);
}

#[test]
fn duplicate_labels_are_allowed() {
    let mut s = TabsState::new(vec!["x", "x"]);
    s.next();
    assert_eq!(s.current_index(), 1);
    assert_eq!(s.current(), Some("x"));
}
