use lookup_tables::{Axis, Binary, CachedLinearCell, Clamp, Error, Interp, Linear, LookupTable1D};

const TOL: f64 = 1e-10;

type AxisInterp = Axis<f64, Linear, Interp, Interp>;
type Table1DLinearInterp = LookupTable1D<AxisInterp, f64>;

//
// Table Construction
//

fn linear_simple_table() -> LookupTable1D<Axis<f64, Linear, Interp, Interp>, f64> {
    let x = vec![0., 1., 2., 3.];
    let y = vec![0., 1., 2., 3.];
    let search = Linear::default();
    LookupTable1D::new(x, search, y).unwrap()
}

fn linear_clamp_table() -> LookupTable1D<Axis<f64, Linear, Clamp, Clamp>, f64> {
    let x = vec![0., 1., 2., 3.];
    let y = vec![0., 1., 2., 3.];
    let search = Linear::default();
    LookupTable1D::new(x, search, y).unwrap()
}

fn binary_simple_table() -> LookupTable1D<Axis<f64, Binary, Interp, Interp>, f64> {
    let x = vec![3., 2., 1., 0.];
    let y = vec![3., 2., 1., 0.];
    let search = Binary::default();
    LookupTable1D::new(x, search, y).unwrap()
}

fn cached_linear_cell_simple_table(
    last_index: usize,
) -> LookupTable1D<Axis<f64, CachedLinearCell, Interp, Interp>, f64> {
    let x = vec![0., 1., 2., 3.];
    let y = vec![0., 1., 2., 3.];
    let search = CachedLinearCell::new(last_index);
    LookupTable1D::new(x, search, y).unwrap()
}

//
// Table Construction Tests
//

#[test]
fn construct_table_repeated_entries() {
    // independent variable has repeating entries which should fail to initialize
    let x = vec![0., 0., 2., 3.];
    let y = vec![0., 1., 2., 3.];
    let output: Result<Table1DLinearInterp, _> = LookupTable1D::new(x, Linear::default(), y);
    assert!(output.is_err());
}

#[test]
fn construct_table_non_montonic_increasing() {
    // independent variable is not monotonically increasing
    let x = vec![0., 1., 0.5, 3.];
    let y = vec![0., 1., 2., 3.];
    let output: Result<Table1DLinearInterp, _> = LookupTable1D::new(x, Linear::default(), y);
    assert!(output.is_err());
}

#[test]
fn construct_table_non_montonic_decreasing() {
    // independent variable is not monotonically decreasing
    let x = vec![3., 2., 2.5, 0.];
    let y = vec![3., 2., 1., 0.];
    let output: Result<Table1DLinearInterp, _> = LookupTable1D::new(x, Linear::default(), y);
    assert!(output.is_err());
}

#[test]
fn construct_table_mismatched_lengths() {
    let x = vec![3., 2., 1.];
    let y = vec![3., 2., 1., 0.];
    let output: Result<Table1DLinearInterp, _> = LookupTable1D::new(x, Linear::default(), y);
    assert!(output.is_err());
}

#[test]
fn construct_table_error_variants() {
    let repeated: Result<Table1DLinearInterp, _> =
        LookupTable1D::new(vec![0., 0., 2., 3.], Linear::default(), vec![0., 1., 2., 3.]);
    assert!(matches!(repeated, Err(Error::DuplicateEntry)));

    let unsorted: Result<Table1DLinearInterp, _> =
        LookupTable1D::new(vec![0., 1., 0.5, 3.], Linear::default(), vec![0., 1., 2., 3.]);
    assert!(matches!(unsorted, Err(Error::NonMonotonicSorting)));

    let mismatched: Result<Table1DLinearInterp, _> =
        LookupTable1D::new(vec![3., 2., 1.], Linear::default(), vec![3., 2., 1., 0.]);
    assert!(matches!(mismatched, Err(Error::IndependentDependentLength)));

    let too_short: Result<Table1DLinearInterp, _> =
        LookupTable1D::new(vec![1.0], Linear::default(), vec![1.0]);
    assert!(matches!(too_short, Err(Error::IndependentVariableTooShort)));
}

//
// Linear Tests
//

#[test]
fn table1d_linear_1() {
    let mut table = linear_simple_table();
    let output = table.lookup(0.5);
    assert!((output - 0.5).abs() <= TOL);
}

#[test]
fn linear_2() {
    let mut table = linear_simple_table();
    let output = table.lookup(2.2);
    assert!((output - 2.2).abs() <= TOL);
}

#[test]
fn linear_lower_oob() {
    let mut table = linear_simple_table();
    let output = table.lookup(-1.0);

    assert!((output - -1.0).abs() <= TOL);
}

#[test]
fn linear_higher_oob() {
    let mut table = linear_simple_table();
    let output = table.lookup(100.0);

    assert!((output - 100.0).abs() <= TOL);
}

//
// Linear Tests (With Clamping)
//

#[test]
fn clamp_linear_1() {
    let mut table = linear_clamp_table();
    let output = table.lookup(0.5);
    assert!((output - 0.5).abs() <= TOL);
}

#[test]
fn clamp_linear_2() {
    let mut table = linear_clamp_table();
    let output = table.lookup(2.2);
    assert!((output - 2.2).abs() <= TOL);
}

#[test]
fn clamp_linear_lower_oob() {
    let mut table = linear_clamp_table();
    let output = table.lookup(-1.0);

    assert!((output - 0.0).abs() <= TOL);
}

#[test]
fn clamp_linear_higher_oob() {
    let mut table = linear_clamp_table();
    let output = table.lookup(100.0);

    assert!((output - 3.0).abs() <= TOL);
}

//
// Binary Tests
//

#[test]
fn binary_1() {
    let mut table = binary_simple_table();
    let output = table.lookup(0.5);
    assert!((output - 0.5).abs() <= TOL);
}

#[test]
fn binary_2() {
    let mut table = binary_simple_table();
    let output = table.lookup(2.2);
    assert!((output - 2.2).abs() <= TOL);
}

#[test]
fn binary_lower_oob() {
    let mut table = binary_simple_table();
    let output = table.lookup(-1.0);

    assert!((output - -1.0).abs() <= TOL);
}

#[test]
fn binary_higher_oob() {
    let mut table = binary_simple_table();
    let output = table.lookup(100.0);

    assert!((output - 100.0).abs() <= TOL);
}

//
// CachedLinearCell Tests
//

#[test]
fn cached_linear_cell_1() {
    for last_index in 0..4 {
        let mut table = cached_linear_cell_simple_table(last_index);
        let output = table.lookup(0.5);
        assert!((output - 0.5).abs() <= TOL);
    }
}

#[test]
fn cached_linear_cell_2() {
    for last_index in 0..4 {
        let mut table = cached_linear_cell_simple_table(last_index);
        let output = table.lookup(2.2);
        assert!((output - 2.2).abs() <= TOL);
    }
}

#[test]
fn cached_linear_cell_lower_oob() {
    for last_index in 0..4 {
        let mut table = cached_linear_cell_simple_table(last_index);
        let output = table.lookup(-1.0);

        assert!((output - -1.0).abs() <= TOL);
    }
}

#[test]
fn cached_linear_cell_higher_oob() {
    for last_index in 0..4 {
        let mut table = cached_linear_cell_simple_table(last_index);
        let output = table.lookup(100.0);

        assert!((output - 100.0).abs() <= TOL);
    }
}

//
// vector valued dependent variables
//

#[test]
/// ensure nalgebra types can be used for computation of the dependent variables
fn linear_nalgebra_dependent() {
    let x = vec![0., 1., 2., 3.];
    let y = vec![
        nalgebra::Vector2::new(0., 1.),
        nalgebra::Vector2::new(2., 3.),
        nalgebra::Vector2::new(4., 5.),
        nalgebra::Vector2::new(6., 7.),
    ];
    let search = Linear::default();
    let mut table: LookupTable1D<Axis<f64, Linear, Interp, Interp>, _> =
        LookupTable1D::new(x, search, y).unwrap();
    let output = table.lookup(1.5);
    assert!((output[0] - 3.0).abs() <= TOL);
    assert!((output[1] - 4.0).abs() <= TOL);
}

//
// General properties on concrete values
//

#[test]
/// exactness at grid points: lookups at stored axis values report the stored
/// samples, with no interpolation error
fn grid_point_lookups_are_exact() {
    let x = vec![0.0, 1.0, 2.0, 3.0];
    let y = vec![5.0, -1.0, 0.25, 8.0];
    let mut table: LookupTable1D<Axis<f64, Linear, Interp, Interp>, f64> =
        LookupTable1D::new(x.clone(), Linear::new(), y.clone()).unwrap();
    for i in 0..x.len() {
        assert_eq!(table.lookup(x[i]), y[i]);
    }
}

#[test]
/// monotonicity round-trip: a decreasing axis with its samples, and the
/// pre-reversed pair, construct tables that report identical values
fn reversed_axis_lookups_match_prereversed() {
    let x_down = vec![3., 2., 1., 0.];
    let y_down = vec![9., 4., 1., 0.];
    let x_up = vec![0., 1., 2., 3.];
    let y_up = vec![0., 1., 4., 9.];
    let mut from_down: LookupTable1D<Axis<f64, Linear, Interp, Interp>, f64> =
        LookupTable1D::new(x_down, Linear::new(), y_down).unwrap();
    let mut from_up: LookupTable1D<Axis<f64, Linear, Interp, Interp>, f64> =
        LookupTable1D::new(x_up, Linear::new(), y_up).unwrap();
    for q in [-1.0, 0.0, 0.5, 1.0, 1.7, 2.5, 3.0, 10.0] {
        assert_eq!(from_down.lookup(q), from_up.lookup(q));
    }
}

#[test]
/// search-strategy equivalence: identical tables differing only in strategy
/// report bit-identical values
fn strategies_report_identical_values() {
    let x = vec![0.0, 0.5, 1.0, 2.0, 4.0];
    let y = vec![1.0, -2.0, 7.5, 0.125, 3.0];
    let mut linear: LookupTable1D<Axis<f64, Linear, Interp, Interp>, f64> =
        LookupTable1D::new(x.clone(), Linear::new(), y.clone()).unwrap();
    let mut binary: LookupTable1D<Axis<f64, Binary, Interp, Interp>, f64> =
        LookupTable1D::new(x.clone(), Binary::new(), y.clone()).unwrap();
    for q in [-2.0, 0.0, 0.1, 0.5, 0.75, 1.0, 1.5, 2.0, 3.3, 4.0, 6.0] {
        let expected = linear.lookup(q);
        assert_eq!(binary.lookup(q), expected);
        for cache in 0..4 {
            let mut cached: LookupTable1D<Axis<f64, CachedLinearCell, Interp, Interp>, f64> =
                LookupTable1D::new(x.clone(), CachedLinearCell::new(cache), y.clone()).unwrap();
            assert_eq!(cached.lookup(q), expected);
        }
    }
}

#[test]
/// clamp idempotence: beyond the upper bound a clamped lookup equals the
/// lookup at the axis end exactly
fn clamped_lookups_saturate() {
    let mut table = linear_clamp_table();
    let at_max = table.lookup(3.0);
    assert_eq!(table.lookup(100.0), at_max);
    assert_eq!(table.lookup(3.5), at_max);
    let at_min = table.lookup(0.0);
    assert_eq!(table.lookup(-100.0), at_min);
}

#[test]
/// extrapolation linearity: beyond the bounds the result lies on the line
/// through the nearest two grid points
fn extrapolation_follows_edge_slope() {
    let x = vec![0.0, 1.0, 2.0];
    let y = vec![0.0, 1.0, 3.0];
    let mut table: LookupTable1D<Axis<f64, Linear, Interp, Interp>, f64> =
        LookupTable1D::new(x, Linear::new(), y).unwrap();
    // below: slope of the first interval is 1
    assert!((table.lookup(-2.0) - -2.0).abs() <= TOL);
    // above: slope of the last interval is 2
    assert!((table.lookup(4.0) - 7.0).abs() <= TOL);
}

#[test]
/// an integer-scalar table interpolates with truncating integer arithmetic
fn integer_table_lookup() {
    let x: Vec<i64> = vec![0, 2, 4];
    let y: Vec<i64> = vec![0, 10, 20];
    let mut table: LookupTable1D<Axis<i64, Binary, Clamp, Clamp>, i64> =
        LookupTable1D::new(x, Binary::new(), y).unwrap();
    assert_eq!(table.lookup(0), 0);
    assert_eq!(table.lookup(1), 5);
    assert_eq!(table.lookup(2), 10);
    assert_eq!(table.lookup(3), 15);
    assert_eq!(table.lookup(100), 20);
}
