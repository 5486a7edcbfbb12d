use power_daemon::selection::{collect_range, Selection};

fn selection(selected: &[u32], anchor: Option<u32>) -> Selection {
    Selection { selected: selected.to_vec(), anchor }
}

#[test]
fn new_selection_is_empty() {
    assert_eq!(Selection::new(), selection(&[], None));
}

#[test]
fn plain_click_selects_one_core_and_sets_the_anchor() {
    let mut state = selection(&[1, 2, 3], Some(1));
    state.click(7, false, false);
    assert_eq!(state, selection(&[7], Some(7)));
}

#[test]
fn anchor_click_toggles_one_core() {
    let mut state = selection(&[1, 2, 3], Some(1));
    state.click(2, true, false);
    assert_eq!(state, selection(&[1, 3], Some(2)));
    state.click(2, true, false);
    assert_eq!(state, selection(&[1, 3, 2], Some(2)));
    state.click(9, true, false);
    assert_eq!(state, selection(&[1, 3, 2, 9], Some(9)));
}

#[test]
fn anchor_click_on_an_empty_selection() {
    let mut state = Selection::new();
    state.click(4, true, false);
    assert_eq!(state, selection(&[4], Some(4)));
    state.click(4, true, false);
    assert_eq!(state, selection(&[], Some(4)));
}

#[test]
fn range_click_selects_from_the_anchor() {
    let mut state = selection(&[9, 11], Some(3));
    state.click(5, false, true);
    assert_eq!(state, selection(&[3, 4, 5], Some(3)));
    state.click(1, false, true);
    assert_eq!(state, selection(&[1, 2, 3], Some(3)));
    state.click(3, false, true);
    assert_eq!(state, selection(&[3], Some(3)));
}

#[test]
fn range_click_without_an_anchor_is_a_plain_click() {
    let mut state = selection(&[9, 11], None);
    state.click(5, false, true);
    assert_eq!(state, selection(&[5], Some(5)));
}

#[test]
fn combined_click_extends_the_range_of_the_selection() {
    let mut state = selection(&[6, 4], Some(6));
    state.click(8, true, true);
    assert_eq!(state, selection(&[4, 5, 6, 7, 8], Some(6)));
    state.click(2, true, true);
    assert_eq!(state, selection(&[2, 3, 4, 5, 6, 7, 8], Some(6)));
    state.click(5, true, true);
    assert_eq!(state, selection(&[2, 3, 4, 5, 6, 7, 8], Some(6)));
}

#[test]
fn combined_click_on_an_empty_selection_selects_one_core() {
    let mut state = Selection::new();
    state.click(5, true, true);
    assert_eq!(state, selection(&[5], None));
    let mut state = selection(&[], Some(2));
    state.click(5, true, true);
    assert_eq!(state, selection(&[5], Some(2)));
}

#[test]
fn ranges_include_both_ends() {
    assert_eq!(collect_range(0, 0), vec![0]);
    assert_eq!(collect_range(3, 6), vec![3, 4, 5, 6]);
    assert!(collect_range(6, 3).is_empty());
    assert_eq!(collect_range(4294967293, 4294967295), vec![4294967293, 4294967294, 4294967295]);
}
