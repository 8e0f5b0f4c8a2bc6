use lookup_tables::{Bound, Clamp, Interp};

//
// Clamp Tests
//

#[test]
fn clamp_inbounds() {
    let x = 2.5;
    let lower = 0.0;
    let higher = 5.0;
    let output_high = Clamp::upper_bound(x, higher);
    let output_low = Clamp::lower_bound(x, lower);

    assert!(output_high == x);
    assert!(output_low == x);
}

#[test]
fn clamp_high() {
    let x = 10.0;
    let lower = 0.0;
    let higher = 5.0;
    let output_high = Clamp::upper_bound(x, higher);
    let output_low = Clamp::lower_bound(x, lower);

    assert!(output_high == higher);
    assert!(output_low == x);
}

#[test]
fn clamp_low() {
    let x = -2.0;
    let lower = 0.0;
    let higher = 5.0;
    let output_high = Clamp::upper_bound(x, higher);
    let output_low = Clamp::lower_bound(x, lower);

    assert!(output_high == x);
    assert!(output_low == lower);
}

//
// Interp Tests
//

#[test]
fn interp_inbounds() {
    let x = 2.5;
    let lower = 0.0;
    let higher = 5.0;
    let output_high = Interp::upper_bound(x, higher);
    let output_low = Interp::lower_bound(x, lower);

    assert!(output_high == x);
    assert!(output_low == x);
}

#[test]
fn interp_high() {
    let x = 10.0;
    let lower = 0.0;
    let higher = 5.0;
    let output_high = Interp::upper_bound(x, higher);
    let output_low = Interp::lower_bound(x, lower);

    assert!(output_high == x);
    assert!(output_low == x);
}

#[test]
fn interp_low() {
    let x = -2.0;
    let lower = 0.0;
    let higher = 5.0;
    let output_high = Interp::upper_bound(x, higher);
    let output_low = Interp::lower_bound(x, lower);

    assert!(output_high == x);
    assert!(output_low == x);
}
