use uhd::double::Double;
use uhd::range::{MetaRange, Range};

fn range(start: f64, stop: f64, step: f64) -> Range {
    Range::new(
        Double::from_bits(start.to_bits()),
        Double::from_bits(stop.to_bits()),
        Double::from_bits(step.to_bits()),
    )
}

fn three() -> MetaRange {
    let mut ranges = MetaRange::new();
    ranges.push(range(0.0, 10.0, 1.0));
    ranges.push(range(20.0, 30.0, 0.5));
    ranges.push(range(40.0, 40.0, 0.0));
    ranges
}

#[test]
fn empty_meta_range() {
    let ranges = MetaRange::new();
    assert_eq!(0, ranges.len());
    assert_eq!(None, ranges.get(0));
    assert_eq!(None, ranges.iter().next());
    assert_eq!(0, MetaRange::default().len());
}

#[test]
fn default_range_is_zero() {
    assert_eq!(range(0.0, 0.0, 0.0), Range::default());
}

#[test]
fn get_at_the_ends() {
    let ranges = three();
    assert_eq!(3, ranges.len());
    assert_eq!(None, ranges.get(ranges.len()));
    assert_eq!(Some(range(40.0, 40.0, 0.0)), ranges.get(ranges.len() - 1));
    assert_eq!(Some(range(0.0, 10.0, 1.0)), ranges.get(0));
    assert_eq!(Some(range(20.0, 30.0, 0.5)), ranges.get(1));
    assert_eq!(None, ranges.get(usize::MAX));
}

#[test]
fn iterate_meta_range() {
    let ranges = three();
    let mut iter = ranges.iter();
    assert_eq!((3, Some(3)), iter.size_hint());
    assert_eq!(Some(range(0.0, 10.0, 1.0)), iter.next());
    assert_eq!((2, Some(2)), iter.size_hint());
    assert_eq!(Some(range(20.0, 30.0, 0.5)), iter.next());
    assert_eq!(Some(range(40.0, 40.0, 0.0)), iter.next());
    assert_eq!((0, Some(0)), iter.size_hint());
    assert_eq!(None, iter.next());
    assert_eq!(None, iter.next());
    let mut iter = ranges.iter();
    iter.next();
    assert_eq!(2, iter.count());
    assert_eq!(3, ranges.iter().count());
}

#[test]
fn range_from_native_status() {
    let found = range(1.0, 2.0, 0.1);
    assert_eq!(Some(found), MetaRange::range_from_status(0, found));
    assert_eq!(None, MetaRange::range_from_status(70, found));
}
