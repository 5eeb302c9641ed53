use stocks_dashboard::reactive::{merge, CombineLatest, DistinctUntilChanged, WithLatestFrom};

#[test]
fn combine_latest_waits_for_both_sides() {
    let mut c: CombineLatest<u8, char> = CombineLatest::new();
    assert_eq!(c.push_left(1), None);
    assert_eq!(c.push_left(2), None);
    assert_eq!(c.push_right('a'), Some((2, 'a')));
    assert_eq!(c.push_left(3), Some((3, 'a')));
    assert_eq!(c.push_right('b'), Some((3, 'b')));
}

#[test]
fn with_latest_from_samples() {
    let mut w: WithLatestFrom<i32> = WithLatestFrom::new();
    assert_eq!(w.push('x'), None);
    w.sample(7);
    w.sample(8);
    assert_eq!(w.push('y'), Some(('y', 8)));
}

#[test]
fn distinct_until_changed_drops_repeats() {
    let mut d = DistinctUntilChanged::new();
    let out: Vec<Option<i64>> = [1, 1, 2, 2, 1].iter().map(|v| d.push(*v)).collect();
    assert_eq!(out, vec![Some(1), None, Some(2), None, Some(1)]);
}

#[test]
fn merge_keeps_arrival_order() {
    let left = vec![(1u64, 'a'), (4, 'b'), (6, 'c')];
    let right = vec![(2u64, 'x'), (4, 'y'), (9, 'z')];
    assert_eq!(
        merge(&left, &right),
        vec![(true, 'a'), (false, 'x'), (true, 'b'), (false, 'y'), (true, 'c'), (false, 'z')]
    );
    assert_eq!(merge::<char>(&vec![], &vec![]), vec![]);
}
