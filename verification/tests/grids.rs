use lookup_tables::{Grid2, Grid3};

#[test]
fn grid2_rejects_wrong_flat_length() {
    assert!(Grid2::new(2, 3, vec![0i64; 5]).is_none());
    assert!(Grid2::new(2, 3, vec![0i64; 6]).is_some());
}

#[test]
fn grid2_get_reads_row_major() {
    let g = Grid2::new(2, 3, vec![1, 2, 3, 4, 5, 6]).unwrap();
    assert_eq!(g.len_of(0), 2);
    assert_eq!(g.len_of(1), 3);
    assert_eq!(g.get(0, 0), 1);
    assert_eq!(g.get(0, 2), 3);
    assert_eq!(g.get(1, 0), 4);
    assert_eq!(g.get(1, 2), 6);
}

#[test]
fn grid2_invert_axis_mirrors_one_dimension() {
    let mut g = Grid2::new(2, 3, vec![1, 2, 3, 4, 5, 6]).unwrap();
    g.invert_axis(0);
    assert_eq!(g.get(0, 0), 4);
    assert_eq!(g.get(1, 2), 3);
    g.invert_axis(1);
    assert_eq!(g.get(0, 0), 6);
    assert_eq!(g.get(1, 1), 2);
}

#[test]
fn grid3_rejects_wrong_flat_length() {
    assert!(Grid3::new(2, 2, 2, vec![0i64; 7]).is_none());
    assert!(Grid3::new(2, 2, 2, vec![0i64; 8]).is_some());
}

#[test]
fn grid3_get_reads_row_major() {
    let flat: Vec<i64> = (0..12).collect();
    let g = Grid3::new(2, 3, 2, flat).unwrap();
    assert_eq!(g.len_of(0), 2);
    assert_eq!(g.len_of(1), 3);
    assert_eq!(g.len_of(2), 2);
    assert_eq!(g.get(0, 0, 0), 0);
    assert_eq!(g.get(0, 2, 1), 5);
    assert_eq!(g.get(1, 0, 0), 6);
    assert_eq!(g.get(1, 2, 1), 11);
}

#[test]
fn grid3_invert_axis_mirrors_one_dimension() {
    let flat: Vec<i64> = (0..12).collect();
    let mut g = Grid3::new(2, 3, 2, flat).unwrap();
    g.invert_axis(2);
    assert_eq!(g.get(0, 0, 0), 1);
    assert_eq!(g.get(1, 2, 1), 10);
    g.invert_axis(1);
    assert_eq!(g.get(0, 0, 0), 5);
    assert_eq!(g.get(1, 2, 0), 7);
}
