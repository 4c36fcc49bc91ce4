use sdop_game::inventory::{available_categories, category_cursor, change_item};

#[test]
fn forward_moves_to_the_next_owned_item_and_wraps() {
    let e = [false, true, false, true, false];
    assert_eq!(change_item(&e, 0, 0), 1);
    assert_eq!(change_item(&e, 1, 1), 3);
    assert_eq!(change_item(&e, 3, 1), 1);
    assert_eq!(change_item(&e, 4, 1), 1);
}

#[test]
fn backward_moves_to_the_previous_owned_item_and_wraps() {
    let e = [false, true, false, true, false];
    assert_eq!(change_item(&e, 3, -1), 1);
    assert_eq!(change_item(&e, 1, -1), 3);
    assert_eq!(change_item(&e, 5, -1), 3);
    // From 0 the search starts at 0 (the remainder of -1 keeps its sign).
    let e = [true, false, true];
    assert_eq!(change_item(&e, 0, -1), 0);
}

#[test]
fn category_cursor_wraps_through_the_exit() {
    assert_eq!(category_cursor(0, 1, 3), 1);
    assert_eq!(category_cursor(2, 1, 3), -1);
    assert_eq!(category_cursor(-1, 1, 3), 0);
    assert_eq!(category_cursor(0, -1, 3), -1);
    // Left from the exit goes to the first category.
    assert_eq!(category_cursor(-1, -1, 3), 0);
    assert_eq!(category_cursor(0, 0, 0), -1);
}

#[test]
fn categories_with_owned_items() {
    let r = available_categories(&[false, true, true, false, false, true]);
    assert_eq!(r.as_slice(), &[1, 2, 5]);
    assert!(available_categories(&[]).is_empty());
    // The screen has room for ten categories; more owned ones are left out.
    let many = available_categories(&[true; 12]);
    assert_eq!(many.as_slice(), &[0, 1, 2, 3, 4, 5, 6, 7, 8, 9]);
}

#[test]
fn forward_then_back_returns() {
    let e = [false, true, false, false, true, true];
    for c in [1usize, 4] {
        let f = change_item(&e, c, 1);
        assert_eq!(change_item(&e, f, -1), c);
    }
    // From the last shown item forward wraps to the first; back from there stays put when
    // the first shown item is at index 0.
    let e = [true, false, true];
    let f = change_item(&e, 2, 1);
    assert_eq!(f, 0);
    assert_eq!(change_item(&e, f, -1), 0);
}
