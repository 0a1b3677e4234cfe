use tui_textarea::next_scroll_top;
use tui_textarea::Viewport;

#[test]
fn cursor_before_the_window_becomes_the_top() {
    assert_eq!(next_scroll_top(5, 2, 10), 2);
}

#[test]
fn cursor_behind_the_window_becomes_the_last_cell() {
    assert_eq!(next_scroll_top(0, 12, 10), 3);
}

#[test]
fn cursor_inside_the_window_moves_nothing() {
    assert_eq!(next_scroll_top(3, 7, 10), 3);
}

#[test]
fn cursor_on_the_edges_of_the_window() {
    assert_eq!(next_scroll_top(3, 3, 10), 3);
    assert_eq!(next_scroll_top(3, 12, 10), 3);
    assert_eq!(next_scroll_top(3, 13, 10), 4);
    assert_eq!(next_scroll_top(3, 2, 10), 2);
}

#[test]
fn window_of_one_cell_follows_the_cursor_exactly() {
    assert_eq!(next_scroll_top(0, 0, 1), 0);
    assert_eq!(next_scroll_top(0, 9, 1), 9);
    assert_eq!(next_scroll_top(9, 4, 1), 4);
    assert_eq!(next_scroll_top(0, 65535, 1), 65535);
}

#[test]
fn window_without_extent() {
    assert_eq!(next_scroll_top(0, 5, 0), 6);
    assert_eq!(next_scroll_top(5, 5, 0), 6);
    assert_eq!(next_scroll_top(6, 5, 0), 5);
    assert_eq!(next_scroll_top(0, 0, 0), 1);
}

#[test]
fn window_without_extent_at_the_largest_coordinate() {
    assert_eq!(next_scroll_top(0, 65535, 0), 65535);
    assert_eq!(next_scroll_top(65535, 65535, 0), 65535);
}

#[test]
fn extreme_arguments_do_not_overflow() {
    assert_eq!(next_scroll_top(65535, 65535, 65535), 65535);
    assert_eq!(next_scroll_top(65535, 0, 65535), 0);
    assert_eq!(next_scroll_top(0, 65535, 65535), 1);
    assert_eq!(next_scroll_top(1, 65535, 65535), 1);
    assert_eq!(next_scroll_top(0, 65534, 65535), 0);
    assert_eq!(next_scroll_top(40000, 50000, 40000), 40000);
    assert_eq!(next_scroll_top(1, 3, 10), 1);
    assert_eq!(next_scroll_top(0, 65535, 1), 65535);
}

#[test]
fn the_three_cases_agree_with_their_formulas() {
    let samples: [u16; 12] = [0, 1, 2, 3, 9, 10, 11, 1000, 32768, 65533, 65534, 65535];
    for &prev_top in samples.iter() {
        for &cursor in samples.iter() {
            for &length in samples.iter() {
                let top = next_scroll_top(prev_top, cursor, length);
                let (p, c, l) = (prev_top as i64, cursor as i64, length as i64);
                if c < p {
                    assert_eq!(top, cursor);
                } else if c >= p + l {
                    if c + 1 - l <= 65535 {
                        assert_eq!(top as i64, c + 1 - l);
                    } else {
                        assert_eq!(top, 65535);
                    }
                } else {
                    assert_eq!(top, prev_top);
                }
                if length > 0 {
                    assert!(top <= cursor);
                    assert!(c < top as i64 + l);
                }
            }
        }
    }
}

#[test]
fn following_twice_is_following_once() {
    let samples: [u16; 12] = [0, 1, 2, 3, 9, 10, 11, 1000, 32768, 65533, 65534, 65535];
    for &prev_top in samples.iter() {
        for &cursor in samples.iter() {
            for &length in samples.iter() {
                if length > 0 || cursor == 65535 {
                    let once = next_scroll_top(prev_top, cursor, length);
                    assert_eq!(next_scroll_top(once, cursor, length), once);
                }
            }
        }
    }
}

#[test]
fn a_window_without_extent_never_settles() {
    let once = next_scroll_top(0, 5, 0);
    let twice = next_scroll_top(once, 5, 0);
    let thrice = next_scroll_top(twice, 5, 0);
    assert_eq!((once, twice, thrice), (6, 5, 6));
}

#[test]
fn follow_cursor_updates_both_axes_and_the_size() {
    let mut v = Viewport::default();
    assert_eq!(v.follow_cursor(30, 100, 80, 24), (7, 21));
    assert_eq!(v.rect(), (7, 21, 80, 24));
}

#[test]
fn follow_cursor_is_sticky() {
    let mut v = Viewport::default();
    v.store(7, 21, 80, 24);
    assert_eq!(v.follow_cursor(7, 21, 80, 24), (7, 21));
    assert_eq!(v.follow_cursor(30, 100, 80, 24), (7, 21));
    assert_eq!(v.follow_cursor(31, 101, 80, 24), (8, 22));
    assert_eq!(v.follow_cursor(20, 50, 80, 24), (8, 22));
    assert_eq!(v.follow_cursor(3, 4, 80, 24), (3, 4));
    assert_eq!(v.rect(), (3, 4, 80, 24));
}

#[test]
fn follow_cursor_keeps_the_cursor_inside() {
    let mut v = Viewport::default();
    let cursors: [(u16, u16); 6] = [(0, 0), (100, 3), (99, 500), (65535, 65535), (12, 65000), (0, 1)];
    for &(row, col) in cursors.iter() {
        let (top_row, top_col) = v.follow_cursor(row, col, 80, 24);
        assert!(top_row <= row && (row as u32) < top_row as u32 + 24);
        assert!(top_col <= col && (col as u32) < top_col as u32 + 80);
        assert_eq!(v.rect(), (top_row, top_col, 80, 24));
    }
}

#[test]
fn follow_cursor_uses_the_new_size_and_records_it() {
    let mut v = Viewport::default();
    v.store(0, 0, 80, 24);
    // The size on record is the one of the frame before, until the update.
    assert_eq!(v.rect(), (0, 0, 80, 24));
    assert_eq!(v.follow_cursor(15, 50, 40, 10), (6, 11));
    assert_eq!(v.rect(), (6, 11, 40, 10));
}

#[test]
fn follow_cursor_into_an_empty_area() {
    let mut v = Viewport::default();
    v.store(2, 2, 80, 24);
    assert_eq!(v.follow_cursor(5, 1, 0, 0), (6, 1));
    assert_eq!(v.rect(), (6, 1, 0, 0));
    assert_eq!(v.position(), (6, 1, 6, 1));
}
