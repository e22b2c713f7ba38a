use neural_net::{from_rows, take_parameters, to_rows, Error};

#[test]
fn to_rows_reads_column_major_entries() {
    // 2 × 3 matrix [[1, 2, 3], [4, 5, 6]] stored column by column.
    let values = vec![1, 4, 2, 5, 3, 6];
    assert_eq!(to_rows(2, 3, &values), vec![vec![1, 2, 3], vec![4, 5, 6]]);
    assert_eq!(to_rows(3, 1, &vec![7, 8, 9]), vec![vec![7], vec![8], vec![9]]);
}

#[test]
fn from_rows_lays_entries_out_by_column() {
    let rows = vec![vec![1, 2, 3], vec![4, 5, 6]];
    assert_eq!(from_rows(&rows), Ok((2, 3, vec![1, 4, 2, 5, 3, 6])));
    let empty: Vec<Vec<u8>> = vec![];
    assert_eq!(from_rows(&empty), Ok((0, 0, vec![])));
}

#[test]
fn from_rows_rejects_ragged_rows() {
    let rows = vec![vec![1, 2], vec![3]];
    assert!(matches!(from_rows(&rows), Err(Error::SerdeError(_))));
}

#[test]
fn rows_round_trip_is_bit_identical() {
    let values = vec![0.1f64, -2.5e-300, 1.0 / 3.0, f64::MAX, -0.0, 7.25];
    let rows = to_rows(3, 2, &values);
    let (nr, nc, back) = from_rows(&rows).unwrap();
    assert_eq!((nr, nc), (3, 2));
    let bits: Vec<u64> = values.iter().map(|v| v.to_bits()).collect();
    let back_bits: Vec<u64> = back.iter().map(|v| v.to_bits()).collect();
    assert_eq!(bits, back_bits);
}

#[test]
fn save_then_load_through_json_is_bit_identical() {
    let weights = vec![vec![0.123456789f64, -1.5, 2.0e-10, 0.7], vec![1.0 / 7.0, -3.25, 9.5]];
    let shapes = [(2usize, 2usize), (1usize, 3usize)];
    let saved: Vec<Vec<Vec<f64>>> = weights
        .iter()
        .zip(shapes.iter())
        .map(|(v, (r, c))| to_rows(*r, *c, v))
        .collect();
    let text = serde_json::to_string(&saved).unwrap();
    let read: Vec<Vec<Vec<f64>>> = serde_json::from_str(&text).unwrap();
    let kept = take_parameters(read, 2).unwrap();
    for (i, rows) in kept.iter().enumerate() {
        let (nr, nc, back) = from_rows(rows).unwrap();
        assert_eq!((nr, nc), shapes[i]);
        let a: Vec<u64> = weights[i].iter().map(|v| v.to_bits()).collect();
        let b: Vec<u64> = back.iter().map(|v| v.to_bits()).collect();
        assert_eq!(a, b);
    }
}
