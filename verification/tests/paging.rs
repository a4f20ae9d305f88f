use csv_viewer::decimal::{push_decimal, to_decimal};
use csv_viewer::pagination::{visible_rows, Limit, PaginationState, PAGE_STEP};

fn numbers(n: usize) -> Vec<usize> {
    (0..n).collect()
}

#[test]
fn new_state_shows_the_first_page() {
    let state = PaginationState::new(7);
    assert_eq!(state.skip(), 0);
    assert_eq!(state.limit(), Limit::Rows(7));
    assert_eq!(state.page_step(), 7);
}

#[test]
fn default_state_uses_the_standard_step() {
    assert_eq!(PAGE_STEP, 50);
    let state = PaginationState::default();
    assert_eq!(state.skip(), 0);
    assert_eq!(state.limit(), Limit::Rows(50));
    assert_eq!(state.page_step(), 50);
}

#[test]
fn window_is_drop_then_take() {
    let rows = numbers(10);
    for skip in 0..=12 {
        for limit in 1..=12 {
            let expected: Vec<usize> = rows.iter().skip(skip).take(limit).copied().collect();
            assert_eq!(visible_rows(&rows, skip, Limit::Rows(limit)), expected.as_slice());
        }
        let expected: Vec<usize> = rows.iter().skip(skip).copied().collect();
        assert_eq!(visible_rows(&rows, skip, Limit::Unbounded), expected.as_slice());
    }
}

#[test]
fn window_has_the_smaller_of_limit_and_rest() {
    for row_count in 0..=6 {
        let rows = numbers(row_count);
        for skip in 0..=row_count {
            for limit in 1..=8 {
                let window = visible_rows(&rows, skip, Limit::Rows(limit));
                assert_eq!(window.len(), limit.min(row_count - skip));
                for (i, row) in window.iter().enumerate() {
                    assert_eq!(*row, rows[skip + i]);
                }
            }
        }
    }
}

#[test]
fn window_past_the_end_is_empty() {
    let rows = numbers(3);
    assert!(visible_rows(&rows, 3, Limit::Rows(2)).is_empty());
    assert!(visible_rows(&rows, 4, Limit::Rows(2)).is_empty());
    assert!(visible_rows(&rows, usize::MAX, Limit::Unbounded).is_empty());
    assert!(visible_rows(&rows, usize::MAX, Limit::Rows(usize::MAX)).is_empty());
}

#[test]
fn window_with_a_huge_limit_is_the_rest() {
    let rows = numbers(5);
    assert_eq!(visible_rows(&rows, 2, Limit::Rows(usize::MAX)), &[2, 3, 4]);
    assert_eq!(visible_rows(&rows, 0, Limit::Rows(0)), &[] as &[usize]);
}

#[test]
fn next_page_adds_one_step() {
    let mut state = PaginationState::new(50);
    state.next_page();
    assert_eq!(state.skip(), 50);
    state.next_page();
    assert_eq!(state.skip(), 100);
    assert_eq!(state.limit(), Limit::Rows(50));
}

#[test]
fn next_page_goes_past_the_last_row() {
    let rows = numbers(3);
    let mut state = PaginationState::new(2);
    state.next_page();
    state.next_page();
    assert_eq!(state.skip(), 4);
    assert!(state.visible(&rows).is_empty());
}

#[test]
fn next_page_stops_at_the_end_of_the_machine_range() {
    let mut state = PaginationState::new(usize::MAX);
    state.next_page();
    assert_eq!(state.skip(), 0);

    let step = usize::MAX / 2;
    let mut state = PaginationState::new(step);
    state.next_page();
    assert_eq!(state.skip(), step);
    state.next_page();
    assert_eq!(state.skip(), 2 * step);
    state.next_page();
    assert_eq!(state.skip(), 2 * step);
    state.prev_page();
    assert_eq!(state.skip(), step);
}

#[test]
fn prev_page_takes_one_step() {
    let mut state = PaginationState::new(50);
    state.next_page();
    state.next_page();
    state.prev_page();
    assert_eq!(state.skip(), 50);
    state.prev_page();
    assert_eq!(state.skip(), 0);
}

#[test]
fn prev_page_at_zero_stays_at_zero() {
    let mut state = PaginationState::new(50);
    state.prev_page();
    assert_eq!(state.skip(), 0);
    state.prev_page();
    assert_eq!(state.skip(), 0);
    assert_eq!(state.limit(), Limit::Rows(50));
}

#[test]
fn load_more_widens_the_window_and_keeps_skip() {
    let mut state = PaginationState::new(50);
    state.next_page();
    state.load_more();
    assert_eq!(state.skip(), 50);
    assert_eq!(state.limit(), Limit::Rows(100));
    state.load_more();
    assert_eq!(state.limit(), Limit::Rows(150));
}

#[test]
fn load_more_beyond_the_machine_range_is_unbounded() {
    let mut state = PaginationState::new(usize::MAX);
    state.load_more();
    assert_eq!(state.limit(), Limit::Unbounded);
    state.load_more();
    assert_eq!(state.limit(), Limit::Unbounded);

    let step = usize::MAX / 2;
    let mut state = PaginationState::new(step);
    state.load_more();
    assert_eq!(state.limit(), Limit::Rows(2 * step));
    state.load_more();
    assert_eq!(state.limit(), Limit::Unbounded);
}

#[test]
fn load_all_shows_every_row() {
    for row_count in [0usize, 1, 49, 50, 51, 1000] {
        let rows = numbers(row_count);
        let mut state = PaginationState::new(50);
        state.next_page();
        state.next_page();
        state.load_all();
        assert_eq!(state.skip(), 0);
        assert_eq!(state.limit(), Limit::Unbounded);
        assert_eq!(state.visible(&rows), rows.as_slice());
    }
}

#[test]
fn reset_gives_the_first_page_whatever_came_before() {
    let mut moved = PaginationState::new(50);
    moved.next_page();
    moved.load_more();
    moved.reset_for_new_table();
    assert_eq!((moved.skip(), moved.limit()), (0, Limit::Rows(50)));

    let mut all = PaginationState::new(50);
    all.load_all();
    all.reset_for_new_table();
    assert_eq!((all.skip(), all.limit()), (0, Limit::Rows(50)));

    let mut twice = PaginationState::new(3);
    twice.next_page();
    twice.reset_for_new_table();
    twice.reset_for_new_table();
    assert_eq!((twice.skip(), twice.limit(), twice.page_step()), (0, Limit::Rows(3), 3));
}

#[test]
fn page_index_counts_from_one() {
    let mut state = PaginationState::new(50);
    assert_eq!(state.page_index(), 1);
    state.next_page();
    assert_eq!(state.page_index(), 2);
    state.next_page();
    state.next_page();
    assert_eq!(state.page_index(), 4);
    state.load_all();
    assert_eq!(state.page_index(), 1);
}

#[test]
fn page_index_fits_at_the_end_of_the_machine_range() {
    let step = usize::MAX / 2;
    let mut state = PaginationState::new(step);
    state.next_page();
    state.next_page();
    state.next_page();
    assert_eq!(state.page_index(), 3);
}

#[test]
fn page_count_is_the_whole_quotient() {
    let mut state = PaginationState::new(50);
    assert_eq!(state.page_count(120), Some(2));
    assert_eq!(state.page_count(150), Some(3));
    assert_eq!(state.page_count(51), Some(1));
    assert_eq!(state.page_count(50), None);
    assert_eq!(state.page_count(0), None);
    state.load_more();
    assert_eq!(state.page_count(120), Some(1));
    assert_eq!(state.page_count(100), None);
    state.load_all();
    assert_eq!(state.page_count(120), None);
    assert_eq!(state.page_count(usize::MAX), None);
}

#[test]
fn paging_is_needed_above_the_limit_only() {
    let mut state = PaginationState::new(50);
    assert!(state.needs_pagination(51));
    assert!(!state.needs_pagination(50));
    assert!(!state.needs_pagination(0));
    state.load_all();
    assert!(!state.needs_pagination(51));
    assert!(!state.needs_pagination(usize::MAX));
}

#[test]
fn prev_control_shows_off_the_first_page() {
    let mut state = PaginationState::new(50);
    assert!(!state.shows_prev());
    state.next_page();
    assert!(state.shows_prev());
    state.prev_page();
    assert!(!state.shows_prev());
}

#[test]
fn row_label_is_count_or_limit_and_count() {
    let mut state = PaginationState::new(50);
    assert_eq!(state.row_count_label(0), "0");
    assert_eq!(state.row_count_label(49), "49");
    assert_eq!(state.row_count_label(50), "50/50");
    assert_eq!(state.row_count_label(1234), "50/1234");
    state.load_more();
    assert_eq!(state.row_count_label(99), "99");
    assert_eq!(state.row_count_label(100), "100/100");
    state.load_all();
    assert_eq!(state.row_count_label(1234), "1234");
    assert_eq!(state.row_count_label(usize::MAX), usize::MAX.to_string());
}

#[test]
fn decimal_text_has_no_leading_zeros() {
    assert_eq!(to_decimal(0), "0");
    assert_eq!(to_decimal(7), "7");
    assert_eq!(to_decimal(10), "10");
    assert_eq!(to_decimal(407), "407");
    assert_eq!(to_decimal(1_000_000), "1000000");
    assert_eq!(to_decimal(usize::MAX), usize::MAX.to_string());
    for n in 0..2000usize {
        assert_eq!(to_decimal(n), n.to_string());
    }
}

#[test]
fn decimal_text_is_added_at_the_end() {
    let mut text = String::from("rows: ");
    push_decimal(&mut text, 1905);
    assert_eq!(text, "rows: 1905");
    push_decimal(&mut text, 0);
    assert_eq!(text, "rows: 19050");
}
