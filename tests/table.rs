use tokamak_equilibria::table::Table;

fn sample_table() -> Table<f64> {
    // 3 rows (flux points) of 4 columns (angle points).
    let data: Vec<f64> = (0..12).map(|k| 0.5 + k as f64).collect();
    Table::from_row_major(3, 4, data).unwrap()
}

#[test]
fn table_needs_matching_sample_count() {
    assert!(Table::from_row_major(3, 4, vec![0.0; 11]).is_none());
    assert!(Table::from_row_major(3, 4, vec![0.0; 13]).is_none());
    assert!(Table::from_row_major(usize::MAX, 2, vec![0.0; 2]).is_none());
    assert!(Table::<f64>::from_row_major(0, 5, vec![]).is_some());
}

#[test]
fn table_is_row_major() {
    let t = sample_table();
    assert_eq!(t.shape(), (3, 4));
    assert_eq!(t.get(0, 0), 0.5);
    assert_eq!(t.get(1, 2), 6.5);
    assert_eq!(t.get(2, 3), 11.5);
    assert_eq!(t.row(1), vec![4.5, 5.5, 6.5, 7.5]);
}

#[test]
fn axis_row_goes_first() {
    let t = sample_table().with_axis_row(1.0);
    assert_eq!(t.shape(), (4, 4));
    assert!(t.row(0).iter().all(|x| *x == 1.0));
    assert_eq!(t.row(1), vec![0.5, 1.5, 2.5, 3.5]);
    assert_eq!(t.get(3, 3), 11.5);
    assert_eq!(t.get(2, 0), 4.5);
}

#[test]
fn grid_order_runs_the_first_coordinate_fastest() {
    let t = sample_table();
    let g = t.to_grid_order();
    assert_eq!(g, vec![0.5, 4.5, 8.5, 1.5, 5.5, 9.5, 2.5, 6.5, 10.5, 3.5, 7.5, 11.5]);
}

#[test]
fn grid_order_is_the_backend_indexing() {
    let t = sample_table().with_axis_row(1.0);
    let (rows, cols) = t.shape();
    let g = t.to_grid_order();
    assert_eq!(g.len(), rows * cols);
    for i in 0..rows {
        for j in 0..cols {
            let k = rsl_interpolation::z_idx(i, j, rows, cols);
            assert_eq!(g[k], t.get(i, j));
        }
    }
}
