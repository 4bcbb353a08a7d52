use rangeiter::gen_range::GenRangeIter;
use rangeiter::range::RangeIter;

#[test]
fn range_iter() {
    let mut m: i32 = 0;
    let mut it = RangeIter::new(0, 10, 1);
    while let Some(s) = it.produce_next() {
        m += s;
    }
    assert_eq!(m, 55);
}

#[test]
fn gen_range_iter() {
    let mut m: i64 = 0;
    let mut it = GenRangeIter::new(0i64, 10, 1);
    while let Some(s) = it.produce_next() {
        m += s;
    }
    assert_eq!(m, 55);
}

#[test]
fn exhaustion_is_idempotent() {
    let mut it = RangeIter::new(0, 2, 1);
    assert_eq!(it.produce_next(), Some(0));
    assert_eq!(it.produce_next(), Some(1));
    assert_eq!(it.produce_next(), Some(2));
    assert_eq!(it.produce_next(), None);
    assert_eq!(it.produce_next(), None);
    assert_eq!(it.produce_next(), None);
}

#[test]
fn gen_exhaustion_is_idempotent() {
    let mut it = GenRangeIter::new(0i32, 1, 1);
    assert_eq!(it.produce_next(), Some(0));
    assert_eq!(it.produce_next(), Some(1));
    assert_eq!(it.produce_next(), None);
    assert_eq!(it.produce_next(), None);
}

#[test]
fn single_value_when_start_equals_stop() {
    let mut it = RangeIter::new(5, 5, 1);
    assert_eq!(it.produce_next(), Some(5));
    assert_eq!(it.produce_next(), None);

    let mut git = GenRangeIter::new(5i64, 5, 7);
    assert_eq!(git.produce_next(), Some(5));
    assert_eq!(git.produce_next(), None);
}

#[test]
fn no_values_when_start_exceeds_stop() {
    let mut it = RangeIter::new(7, 3, 1);
    assert_eq!(it.produce_next(), None);

    let mut git = GenRangeIter::new(7i32, 3, 1);
    assert_eq!(git.produce_next(), None);
}

#[test]
fn successive_values_increase_by_step() {
    let mut it = RangeIter::new(0, 10, 3);
    let mut values: Vec<i32> = Vec::new();
    while let Some(s) = it.produce_next() {
        values.push(s);
    }
    assert_eq!(values, vec![0, 3, 6, 9]);
    let mut i: usize = 1;
    while i < values.len() {
        assert_eq!(values[i] - values[i - 1], 3);
        assert!(values[i] > values[i - 1]);
        i += 1;
    }
}

#[test]
fn produce_all_collects_in_order() {
    let mut it = RangeIter::new(2, 10, 4);
    assert_eq!(it.produce_all(), vec![2, 6, 10]);
    assert_eq!(it.produce_next(), None);
}

#[test]
fn produce_all_empty_when_start_exceeds_stop() {
    let mut it = RangeIter::new(1, 0, 1);
    assert_eq!(it.produce_all(), Vec::<i32>::new());
}

#[test]
fn negative_range() {
    let mut it = RangeIter::new(-5, -1, 2);
    assert_eq!(it.produce_next(), Some(-5));
    assert_eq!(it.produce_next(), Some(-3));
    assert_eq!(it.produce_next(), Some(-1));
    assert_eq!(it.produce_next(), None);
}

#[test]
fn range_near_the_largest_value() {
    let mut it = RangeIter::new(i32::MAX - 2, i32::MAX - 1, 1);
    assert_eq!(it.produce_next(), Some(i32::MAX - 2));
    assert_eq!(it.produce_next(), Some(i32::MAX - 1));
    assert_eq!(it.produce_next(), None);
}

#[test]
fn step_larger_than_the_range() {
    let mut it = RangeIter::new(0, 10, 20);
    assert_eq!(it.produce_next(), Some(0));
    assert_eq!(it.produce_next(), None);
}

#[test]
fn generic_matches_concrete() {
    let mut it = RangeIter::new(-4, 17, 5);
    let mut git = GenRangeIter::new(-4i32, 17, 5);
    loop {
        let a = it.produce_next();
        let b = git.produce_next();
        assert_eq!(a, b);
        if a.is_none() {
            break;
        }
    }
}
