use edhex::window::{expanded_range, primary_range, window, Range, Window};

#[test]
fn primary_range_is_one_line_from_the_cursor() {
    assert_eq!(primary_range(0, 16, 99), Range { begin: 0, end: 15 });
    assert_eq!(primary_range(8, 4, 19), Range { begin: 8, end: 11 });
    assert_eq!(primary_range(5, 1, 19), Range { begin: 5, end: 5 });
}

#[test]
fn primary_range_stops_at_the_last_byte() {
    assert_eq!(primary_range(18, 4, 19), Range { begin: 18, end: 19 });
    assert_eq!(primary_range(19, 4, 19), Range { begin: 19, end: 19 });
    assert_eq!(primary_range(16, 4, 19), Range { begin: 16, end: 19 });
    assert_eq!(primary_range(3, usize::MAX, 19), Range { begin: 3, end: 19 });
}

#[test]
fn expanded_range_with_context_before() {
    let primary = Range { begin: 8, end: 11 };
    assert_eq!(expanded_range(primary, 1, 0, 4, 19), Range { begin: 4, end: 11 });
    assert_eq!(expanded_range(primary, 2, 0, 4, 19), Range { begin: 0, end: 11 });
    assert_eq!(expanded_range(primary, 3, 0, 4, 19), Range { begin: 0, end: 11 });
}

#[test]
fn expanded_range_with_context_after() {
    let primary = Range { begin: 8, end: 11 };
    assert_eq!(expanded_range(primary, 0, 1, 4, 19), Range { begin: 8, end: 15 });
    assert_eq!(expanded_range(primary, 0, 2, 4, 19), Range { begin: 8, end: 19 });
    assert_eq!(expanded_range(primary, 0, 3, 4, 19), Range { begin: 8, end: 19 });
    assert_eq!(expanded_range(primary, 1, 1, 4, 19), Range { begin: 4, end: 15 });
}

#[test]
fn expanded_range_without_context_is_the_primary_range() {
    let primary = Range { begin: 8, end: 11 };
    assert_eq!(expanded_range(primary, 0, 0, 4, 19), primary);
}

#[test]
fn expanded_range_with_huge_context() {
    let primary = Range { begin: 8, end: 11 };
    assert_eq!(
        expanded_range(primary, usize::MAX, usize::MAX, usize::MAX, 19),
        Range { begin: 0, end: 19 }
    );
    assert_eq!(expanded_range(primary, usize::MAX, usize::MAX, 1, 19), Range { begin: 0, end: 19 });
}

#[test]
fn window_holds_both_ranges() {
    assert_eq!(
        window(8, 4, 1, 0, 19),
        Window { primary: Range { begin: 8, end: 11 }, expanded: Range { begin: 4, end: 11 } }
    );
    assert_eq!(
        window(18, 4, 1, 2, 19),
        Window { primary: Range { begin: 18, end: 19 }, expanded: Range { begin: 14, end: 19 } }
    );
}
