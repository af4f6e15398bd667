use gamlss_family::{ModelError, PackedLowerTriangular};

#[test]
fn packed_storage_uses_shared_cholesky_indexing() {
    let mut matrix = PackedLowerTriangular::try_new(2, vec![1.0, 2.0, 3.0]).unwrap();
    assert_eq!(matrix.get(1, 0), Some(2.0));
    *matrix.get_mut(1, 1).unwrap() = 4.0;
    assert_eq!(matrix.values(), &[1.0, 2.0, 4.0]);
    assert_eq!(matrix.get(0, 1), None);
}

#[test]
fn packed_storage_rejects_invalid_dimensions_and_lengths() {
    assert_eq!(
        PackedLowerTriangular::try_new(0, Vec::<f64>::new()),
        Err(ModelError::InvalidParameter {
            parameter: "dimension",
            expected: "positive",
        })
    );
    assert_eq!(
        PackedLowerTriangular::try_new(2, vec![0.0; 4]),
        Err(ModelError::InvalidParameter {
            parameter: "cholesky",
            expected: "D * (D + 1) / 2 lower-triangular values",
        })
    );
    assert_eq!(
        PackedLowerTriangular::try_new(usize::MAX, vec![0.0; 1]),
        Err(ModelError::ArithmeticOverflow {
            context: "lower-triangular storage length",
        })
    );
}

#[test]
fn packed_storage_reads_entries_in_row_major_order() {
    let matrix = PackedLowerTriangular::try_new(3, vec![10, 20, 21, 30, 31, 32]).unwrap();
    assert_eq!(matrix.dimension(), 3);
    assert_eq!(matrix.lower(0, 0), 10);
    assert_eq!(matrix.lower(2, 1), 31);
    assert_eq!(matrix.get(2, 2), Some(32));
    assert_eq!(matrix.get(3, 0), None);
    assert_eq!(matrix.get(1, 2), None);
}

#[test]
fn filled_storage_has_packed_length() {
    let matrix = PackedLowerTriangular::filled(4, 7u8);
    assert_eq!(matrix.values().len(), 10);
    assert!(matrix.values().iter().all(|value| *value == 7));
    let parts = PackedLowerTriangular::from_validated_parts(2, vec![1, 2, 3]);
    assert_eq!(parts.get(1, 1), Some(3));
    let copy = parts.clone();
    assert_eq!(copy, parts);
}

#[test]
fn get_mut_rejects_upper_and_out_of_range_entries() {
    let mut matrix = PackedLowerTriangular::filled(2, 0i32);
    assert!(matrix.get_mut(0, 1).is_none());
    assert!(matrix.get_mut(2, 0).is_none());
    *matrix.get_mut(1, 0).unwrap() = 5;
    assert_eq!(matrix.values(), &[0, 5, 0]);
}
