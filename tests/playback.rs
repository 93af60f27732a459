use reesim::playback::PathCursor;

#[test]
fn zero_ticks_per_point_is_refused() {
    assert!(PathCursor::new(0).is_none());
}

#[test]
fn cursor_moves_on_after_ticks_per_point() {
    let mut c = PathCursor::new(3).unwrap();
    assert_eq!(c.index(), 0);
    c.advance(5);
    c.advance(5);
    assert_eq!(c.index(), 0);
    c.advance(5);
    assert_eq!(c.index(), 1);
    assert_eq!(c.tick, 0);
}

#[test]
fn cursor_wraps_after_last_point() {
    let mut c = PathCursor::new(1).unwrap();
    let mut seen = Vec::new();
    for _ in 0..7 {
        seen.push(c.index());
        c.advance(3);
    }
    assert_eq!(seen, vec![0, 1, 2, 0, 1, 2, 0]);
}

#[test]
fn hundred_ticks_per_point_walks_a_path() {
    let mut c = PathCursor::new(100).unwrap();
    for _ in 0..250 {
        c.advance(8);
    }
    assert_eq!(c.index(), 2);
    assert_eq!(c.tick, 50);
}

#[test]
fn single_point_path_stays_on_it() {
    let mut c = PathCursor::new(100).unwrap();
    c.advance(1);
    assert_eq!(c.index(), 0);
    assert_eq!(c.tick, 0);
}
