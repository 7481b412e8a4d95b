use changqiao::helper::cycle::{next, next_opt, prev, prev_opt};

#[test]
fn selection_wraps_around() {
    assert_eq!(prev(Some(2), 5), Some(1));
    assert_eq!(prev(Some(0), 5), Some(4));
    assert_eq!(prev(None, 5), Some(4));
    assert_eq!(prev(None, 0), None);
    assert_eq!(prev(Some(0), 0), None);
    assert_eq!(next(Some(2), 5), Some(3));
    assert_eq!(next(Some(4), 5), Some(0));
    assert_eq!(next(Some(9), 5), Some(0));
    assert_eq!(next(None, 5), Some(0));
    assert_eq!(next(None, 0), None);
    assert_eq!(next(Some(0), 0), None);
    assert_eq!(next(Some(usize::MAX), 3), Some(0));
}

#[test]
fn selection_with_an_extra_place_passes_through_none() {
    assert_eq!(prev_opt(Some(2), 5), Some(1));
    assert_eq!(prev_opt(Some(0), 5), None);
    assert_eq!(prev_opt(None, 5), Some(4));
    assert_eq!(prev_opt(None, 0), None);
    assert_eq!(next_opt(Some(2), 5), Some(3));
    assert_eq!(next_opt(Some(4), 5), None);
    assert_eq!(next_opt(None, 5), Some(0));
    assert_eq!(next_opt(None, 0), None);
    assert_eq!(next_opt(Some(usize::MAX), 3), None);
}
