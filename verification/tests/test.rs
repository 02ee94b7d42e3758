use core::mem;

use simple_scan::IntRange;
use simple_scan::IteratorSimpleScanExt;
use simple_scan::Source;
use simple_scan::WrappingAdd;
use simple_scan::WrappingSub;

fn empty_iter() -> IntRange {
    IntRange::new(0, 0)
}

fn sample_iter() -> IntRange {
    IntRange::new(0, 10)
}

// A combining function that must never be invoked: pulling from an adapter
// over an exhausted source has to signal exhaustion without touching it.
struct NeverCalled;

impl simple_scan::Combiner<i32, i32, i32> for NeverCalled {
    // The ghost meaning of the combiner; erased, never evaluated at run time.
    fn rule(&self, _a: i32, _b: i32) -> i32 {
        0
    }

    fn apply(&self, _a: &i32, _b: i32) -> i32 {
        panic!("combining function invoked on an exhausted source");
    }
}

fn collect_all<S: Source>(mut s: S) -> Vec<S::Item> {
    let mut out = Vec::new();
    while let Some(x) = s.next() {
        out.push(x);
    }
    out
}

#[test]
fn trace() {
    let mut with_empty = empty_iter().trace(0, NeverCalled);
    assert_eq!(with_empty.next(), None);

    let result = collect_all(sample_iter().trace(0, WrappingAdd));
    let expect: Vec<i32> = (0..10)
        .scan(0, |s, x| {
            *s += x;
            Some(*s)
        })
        .collect();
    assert_eq!(result, expect);
}

#[test]
fn trace2() {
    let mut with_empty = empty_iter().trace2(0, NeverCalled);
    assert_eq!(with_empty.next(), None);

    let result = collect_all(sample_iter().trace2(0, WrappingAdd));
    let expect: Vec<(i32, i32)> = (0..10)
        .scan(0, |s, x| {
            let prev = *s;
            *s += x;
            Some((prev, *s))
        })
        .collect();
    assert_eq!(result, expect);
}

#[test]
fn diff() {
    let mut with_empty = empty_iter().diff(0, NeverCalled);
    assert_eq!(with_empty.next(), None);

    let ini_val: i32 = 3;
    let result = collect_all(sample_iter().diff(ini_val, WrappingSub));
    let expect: Vec<i32> = (0..10)
        .scan(ini_val, |s, x| {
            let prev = mem::replace(s, x);
            Some(x - prev)
        })
        .collect();
    assert_eq!(result, expect);
}

#[test]
fn trace_running_sum() {
    let result = collect_all(sample_iter().trace(0, WrappingAdd));
    assert_eq!(result, vec![0, 1, 3, 6, 10, 15, 21, 28, 36, 45]);
}

#[test]
fn diff_adjacent_differences() {
    let result = collect_all(sample_iter().diff(3, WrappingSub));
    assert_eq!(result, vec![-3, 1, 1, 1, 1, 1, 1, 1, 1, 1]);
}

#[test]
fn trace2_running_pairs() {
    let result = collect_all(sample_iter().trace2(0, WrappingAdd));
    assert_eq!(
        result,
        vec![
            (0, 0),
            (0, 1),
            (1, 3),
            (3, 6),
            (6, 10),
            (10, 15),
            (15, 21),
            (21, 28),
            (28, 36),
            (36, 45),
        ]
    );
}

#[test]
fn size_hint_forwarded_at_every_step() {
    let mut plain = sample_iter();
    let mut traced = sample_iter().trace(0, WrappingAdd);
    let mut traced2 = sample_iter().trace2(0, WrappingAdd);
    let mut diffed = sample_iter().diff(0, WrappingSub);
    loop {
        let hint = plain.size_hint();
        assert_eq!(traced.size_hint(), hint);
        assert_eq!(traced2.size_hint(), hint);
        assert_eq!(diffed.size_hint(), hint);
        if plain.next().is_none() {
            break;
        }
        traced.next();
        traced2.next();
        diffed.next();
    }
    assert_eq!(traced.size_hint(), (0, Some(0)));
}

#[test]
fn adapters_chain_as_sources() {
    // Differences of the running sums: diff undoes trace up to the seed.
    let result = collect_all(sample_iter().trace(0, WrappingAdd).diff(0, WrappingSub));
    assert_eq!(result, vec![0, 1, 2, 3, 4, 5, 6, 7, 8, 9]);
}

#[test]
fn trace_wraps_on_overflow() {
    let result = collect_all(IntRange::new(1, 2).trace(i32::MAX, WrappingAdd));
    assert_eq!(result, vec![i32::MIN]);
}

#[test]
fn diff_wraps_on_overflow() {
    let result = collect_all(IntRange::new(i32::MAX, i32::MAX).diff(0, WrappingSub));
    assert_eq!(result, Vec::<i32>::new());

    let result = collect_all(IntRange::new(-2, 0).diff(i32::MAX, WrappingSub));
    assert_eq!(result, vec![i32::MAX, 1]);
}

#[test]
fn int_range_counts_up() {
    let mut r = IntRange::new(-2, 1);
    assert_eq!(r.size_hint(), (3, Some(3)));
    assert_eq!(r.next(), Some(-2));
    assert_eq!(r.next(), Some(-1));
    assert_eq!(r.next(), Some(0));
    assert_eq!(r.next(), None);
    assert_eq!(r.next(), None);
    assert_eq!(r.size_hint(), (0, Some(0)));
}
