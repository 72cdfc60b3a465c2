use moosic::handlers::paging::{page_limit, page_of, page_offset, sort_by_time_desc};

#[test]
fn sort_puts_recent_first_and_keeps_ties_in_order() {
    let v = vec![(1, 10), (2, 30), (3, 20), (4, 30), (5, 10)];
    let s = sort_by_time_desc(&v);
    assert_eq!(s, vec![(2, 30), (4, 30), (3, 20), (1, 10), (5, 10)]);
}

#[test]
fn sort_keeps_every_entry() {
    let v = vec![(7, -1), (7, -1), (8, 0)];
    let s = sort_by_time_desc(&v);
    assert_eq!(s, vec![(8, 0), (7, -1), (7, -1)]);
    assert_eq!(sort_by_time_desc(&vec![]), vec![]);
}

#[test]
fn page_takes_the_window() {
    let v = vec![(1, 5), (2, 4), (3, 3), (4, 2)];
    assert_eq!(page_of(&v, 1, 2), vec![2, 3]);
    assert_eq!(page_of(&v, 3, 10), vec![4]);
    assert_eq!(page_of(&v, 9, 10), Vec::<i32>::new());
}

#[test]
fn limits_and_offsets_are_clamped() {
    assert_eq!(page_limit(None, 50, 500), 50);
    assert_eq!(page_limit(Some(0), 50, 500), 1);
    assert_eq!(page_limit(Some(-4), 50, 500), 1);
    assert_eq!(page_limit(Some(9_999), 50, 500), 500);
    assert_eq!(page_limit(Some(20), 50, 500), 20);
    assert_eq!(page_offset(None), 0);
    assert_eq!(page_offset(Some(-3)), 0);
    assert_eq!(page_offset(Some(12)), 12);
}
