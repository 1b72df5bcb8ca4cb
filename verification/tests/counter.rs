use sample_project::counter::Counter;

#[test]
fn test_counter() {
    let mut counter = Counter::new();
    counter.increment();
    assert_eq!(counter.get(), 1);
}

#[test]
fn counter_starts_at_zero() {
    let counter = Counter::new();
    assert_eq!(counter.get(), 0);
}

#[test]
fn counter_counts_every_increment() {
    let mut counter = Counter::new();
    for expected in 1..=1000 {
        counter.increment();
        assert_eq!(counter.get(), expected);
    }
}

#[test]
fn counter_get_does_not_change_the_value() {
    let mut counter = Counter::new();
    counter.increment();
    counter.increment();
    assert_eq!(counter.get(), 2);
    assert_eq!(counter.get(), 2);
}

#[test]
fn counters_are_independent() {
    let mut first = Counter::new();
    let second = Counter::new();
    first.increment();
    assert_eq!(first.get(), 1);
    assert_eq!(second.get(), 0);
}
