use lookup_tables::{
    inbounds_pair_from_higher, inbounds_pair_from_lower, Binary, CachedLinearCell, Linear,
    RuntimeSearch, Search,
};

fn data() -> Vec<usize> {
    vec![0, 2, 4, 6, 8, 10]
}

//
// Linear Tests
//

#[test]
/// check close to the bottom of the table bounds, but still in
fn linear_low() {
    let mut linear = Linear::default();
    let x = data();
    let output = linear.search(1, &x);
    assert!(output.0 == 0);
    assert!(output.1 == 1);
}

#[test]
/// check close to the top of the table bounds, but still in
fn linear_high() {
    let mut linear = Linear::default();
    let x = data();
    let output = linear.search(9, &x);
    assert!(output.0 == 4);
    assert!(output.1 == 5);
}

//
// Binary Tests
//

#[test]
/// check close to the bottom of the table bounds, but still in
fn binary_low() {
    let mut binary = Binary::default();
    let x = data();
    let output = binary.search(1, &x);
    assert!(output.0 == 0);
    assert!(output.1 == 1);
}

#[test]
/// check close to the bottom of the table bounds, but still in
fn binary_inbounds() {
    let mut binary = Binary::default();
    let x = data();
    let output = binary.search(5, &x);
    assert!(output.0 == 2);
    assert!(output.1 == 3);
}

#[test]
/// check close to the top of the table bounds, but still in
fn binary_high() {
    let mut binary = Binary::default();
    let x = data();
    let output = binary.search(9, &x);
    assert!(output.0 == 4);
    assert!(output.1 == 5);
}

//
// Cached Linear Tests
//

#[test]
/// check close to the bottom of the table bounds, but still in
fn cached_linear_low() {
    for starting_index in 0..6 {
        let mut cached_linear = CachedLinearCell::new(starting_index);
        let x = data();
        let output = cached_linear.search(1, &x);
        assert!(output.0 == 0);
        assert!(output.1 == 1);
    }
}

#[test]
/// check close to the bottom of the table bounds, but still in
fn cached_linear_inbounds() {
    for starting_index in 0..6 {
        let mut cached_linear = CachedLinearCell::new(starting_index);
        let x = data();
        let output = cached_linear.search(5, &x);
        assert!(output.0 == 2);
        assert!(output.1 == 3);
    }
}

#[test]
/// check close to the top of the table bounds, but still in
fn cached_linear_high() {
    for starting_index in 0..6 {
        let mut cached_linear = CachedLinearCell::new(starting_index);
        let x = data();
        let output = cached_linear.search(9, &x);
        assert!(output.0 == 4);
        assert!(output.1 == 5);
    }
}

//
// Index pair helpers
//

#[test]
fn pair_from_lower_caps_high_candidates() {
    assert_eq!(inbounds_pair_from_lower(0, 6), (0, 1));
    assert_eq!(inbounds_pair_from_lower(3, 6), (3, 4));
    assert_eq!(inbounds_pair_from_lower(5, 6), (4, 5));
    assert_eq!(inbounds_pair_from_lower(17, 6), (4, 5));
}

#[test]
fn pair_from_higher_caps_both_ends() {
    assert_eq!(inbounds_pair_from_higher(0, 6), (0, 1));
    assert_eq!(inbounds_pair_from_higher(1, 6), (0, 1));
    assert_eq!(inbounds_pair_from_higher(3, 6), (2, 3));
    assert_eq!(inbounds_pair_from_higher(5, 6), (4, 5));
    assert_eq!(inbounds_pair_from_higher(17, 6), (4, 5));
}

//
// Runtime-dispatched search
//

#[test]
fn runtime_search_matches_static_strategies() {
    let x = data();
    for value in [1usize, 5, 9, 11] {
        let mut fixed = Linear::new();
        let expected = fixed.search(value, &x);
        let mut linear = RuntimeSearch::Linear(Linear::new());
        let mut binary = RuntimeSearch::Binary(Binary::new());
        let mut cached = RuntimeSearch::CachedLinearCell(CachedLinearCell::new(0));
        assert_eq!(linear.search(value, &x), expected);
        assert_eq!(binary.search(value, &x), expected);
        assert_eq!(cached.search(value, &x), expected);
    }
}

#[test]
/// every strategy reports an interval whose axis values bound an in-range query
fn search_intervals_bound_the_query() {
    let x = data();
    for value in 0usize..=10 {
        let mut linear = Linear::new();
        let mut binary = Binary::new();
        let (lo, hi) = linear.search(value, &x);
        assert!(hi == lo + 1 && hi < x.len());
        assert!(x[lo] <= value && value <= x[hi]);
        let (lo, hi) = binary.search(value, &x);
        assert!(hi == lo + 1 && hi < x.len());
        assert!(x[lo] <= value && value <= x[hi]);
        for cache in 0..6 {
            let mut cached = CachedLinearCell::new(cache);
            let (lo, hi) = cached.search(value, &x);
            assert!(hi == lo + 1 && hi < x.len());
            assert!(x[lo] <= value && value <= x[hi]);
        }
    }
}
