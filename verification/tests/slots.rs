use struct_cache_field::slot::CacheSlot;

#[test]
fn slot_returns_first_value_forever() {
    let mut slot: CacheSlot<u64> = CacheSlot::empty();
    assert_eq!(slot.get_or_init(10), 10);
    // The body would now compute something else; the slot does not care.
    assert_eq!(slot.get_or_init(99), 10);
    assert_eq!(slot.get_or_init(7), 10);
}

#[test]
fn default_slot_is_empty() {
    let mut slot: CacheSlot<u64> = CacheSlot::default();
    assert_eq!(slot.get_or_init(5), 5);
    assert_eq!(slot.get_or_init(6), 5);
}

#[test]
fn cached_method_ignores_later_field_mutation() {
    // The memoized form of `fn double(&self) -> u64 { 2 * self.x }` on an
    // object starting with `x = 1`.
    let mut x: u64 = 1;
    let mut double_slot: CacheSlot<u64> = CacheSlot::empty();

    // First call: the slot is empty, the body runs, the result is 2.
    assert_eq!(double_slot.get_or_init(2 * x), 2);

    // Mutate the field the body read.
    x = 5;

    // Second call: the body's fresh value would be 10, but the cached value
    // is returned.
    assert_eq!(double_slot.get_or_init(2 * x), 2);
}

#[test]
fn nested_cached_calls_memoize_independently() {
    // `two_times_x` caches `2 * x`; `two_times_x_plus_y` caches
    // `two_times_x() + y`, calling the inner cached method on the same
    // object. Starting from `x = 1`, `y = 10`.
    let mut x: u64 = 1;
    let mut y: u64 = 10;
    let mut inner: CacheSlot<u64> = CacheSlot::empty();
    let mut outer: CacheSlot<u64> = CacheSlot::empty();

    // First outer call runs both bodies.
    let inner_first = inner.get_or_init(2 * x);
    assert_eq!(outer.get_or_init(inner_first + y), 12);

    // Mutate everything the bodies read.
    x = 2;
    y = 20;

    // The outer cache still answers with the first composition.
    let inner_again = inner.get_or_init(2 * x);
    assert_eq!(inner_again, 2);
    assert_eq!(outer.get_or_init(inner_again + y), 12);

    // The inner cache was filled by the first outer call and is unaffected
    // by the outer slot's own memoization.
    assert_eq!(inner.get_or_init(2 * x), 2);
}
