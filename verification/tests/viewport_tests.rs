use gitdash::viewport::{ScrollDirection, ViewportWindow};

fn invariant_holds(w: &ViewportWindow) -> bool {
    if w.height < 1 {
        return false;
    }
    if w.size == 0 {
        return w.selected == 0 && w.offset == 0;
    }
    w.selected < w.size && w.offset <= w.selected && w.selected < w.offset + w.height && (w.offset
        + w.height <= w.size || w.offset == 0)
}

#[test]
fn scroll_down_minimal_shift() {
    // size=100, height=10, selected=5, offset=0; scrolling down 50 lands on
    // 55 and shifts the window just enough: offset 46.
    let mut w = ViewportWindow::new(100, 10);
    w.scroll(ScrollDirection::Down, 5);
    assert_eq!(w.selected, 5);
    assert_eq!(w.offset, 0);
    w.scroll(ScrollDirection::Down, 50);
    assert_eq!(w.selected, 55);
    assert_eq!(w.offset, 46);
    assert!(invariant_holds(&w));
}

#[test]
fn scroll_clamps_at_both_ends() {
    let mut w = ViewportWindow::new(8, 3);
    w.scroll(ScrollDirection::Up, 5);
    assert_eq!(w.selected, 0);
    assert_eq!(w.offset, 0);
    w.scroll(ScrollDirection::Down, 1000);
    assert_eq!(w.selected, 7);
    assert_eq!(w.offset, 5);
    assert!(invariant_holds(&w));
}

#[test]
fn scroll_on_empty_list_is_a_no_op() {
    let mut w = ViewportWindow::new(0, 4);
    w.scroll(ScrollDirection::Down, 3);
    assert_eq!(w.selected, 0);
    assert_eq!(w.offset, 0);
    assert_eq!(w.size, 0);
    assert!(invariant_holds(&w));
}

#[test]
fn invariant_holds_after_any_scroll_sequence() {
    let mut w = ViewportWindow::new(37, 5);
    let moves = [
        (ScrollDirection::Down, 3),
        (ScrollDirection::Down, 30),
        (ScrollDirection::Up, 7),
        (ScrollDirection::Down, 100),
        (ScrollDirection::Up, 100),
        (ScrollDirection::Down, 1),
        (ScrollDirection::Up, 2),
        (ScrollDirection::Down, 36),
    ];
    for (direction, amount) in moves {
        w.scroll(direction, amount);
        assert!(invariant_holds(&w));
    }
}

#[test]
fn scroll_up_shifts_window_just_enough() {
    let mut w = ViewportWindow::new(50, 10);
    w.scroll(ScrollDirection::Down, 30);
    assert_eq!(w.selected, 30);
    assert_eq!(w.offset, 21);
    w.scroll(ScrollDirection::Up, 15);
    assert_eq!(w.selected, 15);
    assert_eq!(w.offset, 15);
    assert!(invariant_holds(&w));
}

#[test]
fn resize_keeps_cursor() {
    let mut w = ViewportWindow::new(100, 10);
    w.scroll(ScrollDirection::Down, 55);
    assert_eq!(w.selected, 55);
    w.resize(4);
    assert_eq!(w.selected, 55);
    assert_eq!(w.height, 4);
    assert!(invariant_holds(&w));
    w.resize(200);
    assert_eq!(w.selected, 55);
    assert_eq!(w.offset, 0);
    assert!(invariant_holds(&w));
}

#[test]
fn resize_total_clamp_preserves_selected_unless_out_of_bounds() {
    let mut w = ViewportWindow::new(20, 5);
    w.scroll(ScrollDirection::Down, 10);
    assert_eq!(w.selected, 10);
    // Still in bounds: the cursor is preserved.
    w.resize_total_clamp(15);
    assert_eq!(w.selected, 10);
    assert!(invariant_holds(&w));
    // Out of bounds: the cursor clamps to size - 1.
    w.resize_total_clamp(4);
    assert_eq!(w.selected, 3);
    assert!(invariant_holds(&w));
    // Shrinking to empty parks the cursor at 0.
    w.resize_total_clamp(0);
    assert_eq!(w.selected, 0);
    assert_eq!(w.offset, 0);
    assert!(invariant_holds(&w));
}

#[test]
fn resize_total_reset_returns_to_top() {
    let mut w = ViewportWindow::new(30, 6);
    w.scroll(ScrollDirection::Down, 25);
    w.resize_total_reset(12);
    assert_eq!(w.selected, 0);
    assert_eq!(w.offset, 0);
    assert_eq!(w.size, 12);
    assert!(invariant_holds(&w));
}

#[test]
fn resize_total_clamp_is_idempotent() {
    let mut w = ViewportWindow::new(40, 7);
    w.scroll(ScrollDirection::Down, 33);
    let mut once = w;
    once.resize_total_clamp(9);
    let mut twice = once;
    twice.resize_total_clamp(9);
    assert_eq!(once, twice);
}
