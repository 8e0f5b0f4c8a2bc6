use lookup_tables::{Axis, Grid3, Interp, Linear, LookupTable3D};

const TOL: f64 = 1e-10;

type LinearAxis = Axis<f64, Linear, Interp, Interp>;
type TableLinLinLin = LookupTable3D<LinearAxis, LinearAxis, LinearAxis, f64>;

fn func3(x: f64, y: f64, z: f64) -> f64 {
    3. * x + y + x + z
}

//
// Table Construction
//

fn data3() -> (Vec<f64>, Vec<f64>, Vec<f64>, Grid3<f64>) {
    let len = 100;
    let step = 5.0 / (len as f64 - 1.0);
    let x: Vec<f64> = (0..len).map(|i| i as f64 * step).collect();
    let y = x.clone();
    let z = x.clone();
    let mut flat = Vec::with_capacity(len * len * len);

    for i in 0..x.len() {
        for j in 0..y.len() {
            for k in 0..z.len() {
                flat.push(func3(x[i], y[j], z[k]));
            }
        }
    }

    let f = Grid3::new(x.len(), y.len(), z.len(), flat).unwrap();
    (x, y, z, f)
}

fn linear_simple_table3() -> TableLinLinLin {
    let (x, y, z, f) = data3();
    let search1 = Linear::default();
    let search2 = Linear::default();
    let search3 = Linear::default();
    LookupTable3D::new(x, search1, y, search2, z, search3, f).unwrap()
}

//
// Table Construction Tests
//

#[test]
fn table3d_construct_table_repeated_entries_1() {
    let (mut x, y, z, f) = data3();

    x[0] = 0.;
    x[1] = 0.;

    let search1 = Linear::default();
    let search2 = Linear::default();
    let search3 = Linear::default();

    let output: Result<TableLinLinLin, _> =
        LookupTable3D::new(x, search1, y, search2, z, search3, f);
    assert!(output.is_err());
}

#[test]
fn table3d_construct_table_repeated_entries_2() {
    let (x, mut y, z, f) = data3();

    y[0] = 0.;
    y[1] = 0.;

    let search1 = Linear::default();
    let search2 = Linear::default();
    let search3 = Linear::default();

    let output: Result<TableLinLinLin, _> =
        LookupTable3D::new(x, search1, y, search2, z, search3, f);
    assert!(output.is_err());
}

#[test]
fn construct_table_repeated_entries_3() {
    let (x, y, mut z, f) = data3();

    z[0] = 0.;
    z[1] = 0.;

    let search1 = Linear::default();
    let search2 = Linear::default();
    let search3 = Linear::default();

    let output: Result<TableLinLinLin, _> =
        LookupTable3D::new(x, search1, y, search2, z, search3, f);
    assert!(output.is_err());
}

#[test]
fn table3d_construct_table_repeated_mismatch_length_1() {
    let (mut x, y, z, f) = data3();

    x.push(100.);

    let search1 = Linear::default();
    let search2 = Linear::default();
    let search3 = Linear::default();

    let output: Result<TableLinLinLin, _> =
        LookupTable3D::new(x, search1, y, search2, z, search3, f);
    assert!(output.is_err());
}

#[test]
fn table3d_construct_table_repeated_mismatch_length_2() {
    let (x, mut y, z, f) = data3();

    y.push(100.0);

    let search1 = Linear::default();
    let search2 = Linear::default();
    let search3 = Linear::default();

    let output: Result<TableLinLinLin, _> =
        LookupTable3D::new(x, search1, y, search2, z, search3, f);
    assert!(output.is_err());
}

#[test]
/// reversing the x vector alone misaligns the dependent data, so the lookup
/// no longer reproduces the sampled function
fn table3d_construct_table_reversed_ax1() {
    let (mut x, y, z, f) = data3();

    x.reverse();

    let y_0 = y[y.len() / 3];
    let x_0 = x[2 * x.len() / 3];
    let z_0 = z[z.len() / 4];
    let f_actual = func3(x_0, y_0, z_0);

    let search1 = Linear::default();
    let search2 = Linear::default();
    let search3 = Linear::default();

    let mut table: TableLinLinLin =
        LookupTable3D::new(x, search1, y, search2, z, search3, f).unwrap();

    let table_reversed_output = table.lookup(x_0, y_0, z_0);

    assert!((table_reversed_output - f_actual).abs() > TOL);
}

#[test]
/// reversing the y vector alone misaligns the dependent data, so the lookup
/// no longer reproduces the sampled function
fn table3d_construct_table_reversed_ax2() {
    let (x, mut y, z, f) = data3();

    y.reverse();

    let y_0 = y[y.len() / 3];
    let x_0 = x[2 * x.len() / 3];
    let z_0 = z[z.len() / 4];
    let f_actual = func3(x_0, y_0, z_0);

    let search1 = Linear::default();
    let search2 = Linear::default();
    let search3 = Linear::default();

    let mut table: TableLinLinLin =
        LookupTable3D::new(x, search1, y, search2, z, search3, f).unwrap();

    let table_reversed_output = table.lookup(x_0, y_0, z_0);

    assert!((table_reversed_output - f_actual).abs() > TOL);
}

#[test]
/// reversing the z vector alone misaligns the dependent data, so the lookup
/// no longer reproduces the sampled function
fn construct_table_reversed_ax3() {
    let (x, y, mut z, f) = data3();

    z.reverse();

    let y_0 = y[y.len() / 3];
    let x_0 = x[2 * x.len() / 3];
    let z_0 = z[z.len() / 4];
    let f_actual = func3(x_0, y_0, z_0);

    let search1 = Linear::default();
    let search2 = Linear::default();
    let search3 = Linear::default();

    let mut table: TableLinLinLin =
        LookupTable3D::new(x, search1, y, search2, z, search3, f).unwrap();

    let table_reversed_output = table.lookup(x_0, y_0, z_0);

    assert!((table_reversed_output - f_actual).abs() > TOL);
}

//
// Linear Tests
//

#[test]
fn table3d_linear_1() {
    let mut table = linear_simple_table3();
    let x = 0.5;
    let y = 2.5;
    let z = 4.2;
    let output = table.lookup(x, y, z);
    assert!((output - func3(x, y, z)).abs() <= TOL);
}

#[test]
fn table3d_linear_low_bound() {
    let mut table = linear_simple_table3();
    let x = 0.;
    let y = 0.;
    let z = 0.;
    let output = table.lookup(x, y, z);
    assert!((output - func3(x, y, z)).abs() <= TOL);
}

#[test]
fn table3d_linear_high_bound() {
    let mut table = linear_simple_table3();
    let x = 5.0;
    let y = 5.0;
    let z = 5.0;
    let output = table.lookup(x, y, z);
    assert!((output - func3(x, y, z)).abs() <= TOL);
}

#[test]
/// grid-point lookups of a small table report the stored samples exactly
fn table3d_grid_point_lookups_are_exact() {
    let x = vec![0.0, 1.0];
    let y = vec![0.0, 1.0, 2.0];
    let z = vec![0.0, 1.0];
    let mut flat = Vec::new();
    for i in 0..2 {
        for j in 0..3 {
            for k in 0..2 {
                flat.push((100 * i + 10 * j + k) as f64);
            }
        }
    }
    let grid = Grid3::new(2, 3, 2, flat.clone()).unwrap();
    let mut table: TableLinLinLin =
        LookupTable3D::new(x.clone(), Linear::new(), y.clone(), Linear::new(), z.clone(),
            Linear::new(), grid).unwrap();
    for i in 0..2 {
        for j in 0..3 {
            for k in 0..2 {
                let expected = (100 * i + 10 * j + k) as f64;
                assert_eq!(table.lookup(x[i], y[j], z[k]), expected);
            }
        }
    }
}
