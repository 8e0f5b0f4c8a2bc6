use lookup_tables::{Axis, Grid2, Interp, Linear, LookupTable2D};

const TOL: f64 = 1e-10;

type LinearAxis = Axis<f64, Linear, Interp, Interp>;
type TableLinLin = LookupTable2D<LinearAxis, LinearAxis, f64>;

fn func2(x: f64, y: f64) -> f64 {
    3. * x + y
}

//
// Table Construction
//

fn data2() -> (Vec<f64>, Vec<f64>, Grid2<f64>) {
    let len = 100;
    let step = 5.0 / (len as f64 - 1.0);
    let x: Vec<f64> = (0..len).map(|i| i as f64 * step).collect();
    let y = x.clone();
    let mut flat = Vec::with_capacity(len * len);

    for i in 0..x.len() {
        for j in 0..y.len() {
            flat.push(func2(x[i], y[j]));
        }
    }

    let f = Grid2::new(x.len(), y.len(), flat).unwrap();
    (x, y, f)
}

fn linear_simple_table2() -> TableLinLin {
    let (x, y, f) = data2();
    let search1 = Linear::default();
    let search2 = Linear::default();
    LookupTable2D::new(x, search1, y, search2, f).unwrap()
}

//
// Table Construction Tests
//

#[test]
fn table2d_construct_table_repeated_entries_1() {
    let (mut x, y, f) = data2();

    x[0] = 0.;
    x[1] = 0.;

    let search1 = Linear::default();
    let search2 = Linear::default();

    let output: Result<TableLinLin, _> = LookupTable2D::new(x, search1, y, search2, f);
    assert!(output.is_err());
}

#[test]
fn table2d_construct_table_repeated_entries_2() {
    let (x, mut y, f) = data2();

    y[0] = 0.;
    y[1] = 0.;

    let search1 = Linear::default();
    let search2 = Linear::default();

    let output: Result<TableLinLin, _> = LookupTable2D::new(x, search1, y, search2, f);
    assert!(output.is_err());
}

#[test]
fn table2d_construct_table_repeated_mismatch_length_1() {
    let (mut x, y, f) = data2();

    x.push(100.);

    let search1 = Linear::default();
    let search2 = Linear::default();

    let output: Result<TableLinLin, _> = LookupTable2D::new(x, search1, y, search2, f);
    assert!(output.is_err());
}

#[test]
fn table2d_construct_table_repeated_mismatch_length_2() {
    let (x, mut y, f) = data2();

    y.push(100.0);

    let search1 = Linear::default();
    let search2 = Linear::default();

    let output: Result<TableLinLin, _> = LookupTable2D::new(x, search1, y, search2, f);
    assert!(output.is_err());
}

#[test]
/// reversing the x vector alone misaligns the dependent data, so the lookup
/// no longer reproduces the sampled function
fn table2d_construct_table_reversed_ax1() {
    let (mut x, y, f) = data2();

    x.reverse();

    let y_0 = y[y.len() / 3];
    let x_0 = x[2 * x.len() / 3];
    let f_actual = func2(x_0, y_0);

    let search1 = Linear::default();
    let search2 = Linear::default();

    let mut table: TableLinLin = LookupTable2D::new(x, search1, y, search2, f).unwrap();

    let table_reversed_output = table.lookup(x_0, y_0);

    assert!((table_reversed_output - f_actual).abs() > TOL);
}

#[test]
/// reversing the y vector alone misaligns the dependent data, so the lookup
/// no longer reproduces the sampled function
fn table2d_construct_table_reversed_ax2() {
    let (x, mut y, f) = data2();

    y.reverse();

    let y_0 = y[y.len() / 3];
    let x_0 = x[2 * x.len() / 3];
    let f_actual = func2(x_0, y_0);

    let search1 = Linear::default();
    let search2 = Linear::default();

    let mut table: TableLinLin = LookupTable2D::new(x, search1, y, search2, f).unwrap();

    let table_reversed_output = table.lookup(x_0, y_0);

    assert!((table_reversed_output - f_actual).abs() > TOL);
}

//
// Linear Tests
//

#[test]
fn table2d_linear_1() {
    let mut table = linear_simple_table2();
    let x = 0.5;
    let y = 2.5;
    let output = table.lookup(x, y);
    assert!((output - func2(x, y)).abs() <= TOL);
}

#[test]
fn table2d_linear_low_bound() {
    let mut table = linear_simple_table2();
    let x = 0.;
    let y = 0.;
    let output = table.lookup(x, y);
    assert!((output - func2(x, y)).abs() <= TOL);
}

#[test]
fn table2d_linear_high_bound() {
    let mut table = linear_simple_table2();
    let x = 5.0;
    let y = 5.0;
    let output = table.lookup(x, y);
    assert!((output - func2(x, y)).abs() <= TOL);
}

//
// General properties on concrete values
//

#[test]
/// a linear function of both inputs is reproduced at interior non-grid
/// points, since bilinear interpolation is exact for it
fn table2d_interior_points_reproduce_linear_function() {
    let mut table = linear_simple_table2();
    for (x, y) in [(0.31, 4.6), (1.77, 0.05), (2.5, 2.5), (4.9, 1.01)] {
        assert!((table.lookup(x, y) - func2(x, y)).abs() <= TOL);
    }
}

#[test]
/// a decreasing axis reversed together with its grid dimension reports the
/// same values as the pre-reversed table
fn table2d_reversed_axis_with_grid_matches() {
    let x = vec![0.0, 1.0, 2.0];
    let y = vec![0.0, 1.0];
    let flat: Vec<f64> = vec![1.0, 2.0, 3.0, 4.0, 5.0, 6.0];
    let grid = Grid2::new(3, 2, flat.clone()).unwrap();
    let mut table: TableLinLin =
        LookupTable2D::new(x, Linear::new(), y, Linear::new(), grid).unwrap();

    // same samples with the first axis stated in decreasing order and the
    // rows of the grid mirrored to stay aligned
    let x_down = vec![2.0, 1.0, 0.0];
    let y_same = vec![0.0, 1.0];
    let flat_down: Vec<f64> = vec![5.0, 6.0, 3.0, 4.0, 1.0, 2.0];
    let grid_down = Grid2::new(3, 2, flat_down).unwrap();
    let mut table_down: TableLinLin =
        LookupTable2D::new(x_down, Linear::new(), y_same, Linear::new(), grid_down).unwrap();

    for (qx, qy) in [(0.0, 0.0), (0.5, 0.5), (1.5, 0.25), (2.0, 1.0), (3.0, 2.0)] {
        assert_eq!(table.lookup(qx, qy), table_down.lookup(qx, qy));
    }
}
