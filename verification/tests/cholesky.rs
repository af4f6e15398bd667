use gamlss_family::multivariate::cholesky::{packed_index, packed_len};

#[test]
fn packed_len_counts_entries_on_and_below_the_diagonal() {
    assert_eq!(packed_len(0), Some(0));
    assert_eq!(packed_len(1), Some(1));
    assert_eq!(packed_len(3), Some(6));
    assert_eq!(packed_len(4), Some(10));
    assert_eq!(packed_len(usize::MAX), None);
}

#[test]
fn packed_index_uses_row_major_lower_order() {
    assert_eq!(packed_index(0, 0), Some(0));
    assert_eq!(packed_index(1, 0), Some(1));
    assert_eq!(packed_index(1, 1), Some(2));
    assert_eq!(packed_index(2, 0), Some(3));
    assert_eq!(packed_index(2, 2), Some(5));
    assert_eq!(packed_index(1, 2), None);
    assert_eq!(packed_index(usize::MAX, 0), None);
}

#[test]
fn packed_indices_of_a_matrix_fill_its_storage_exactly_once() {
    for dimension in 0..8usize {
        let len = packed_len(dimension).unwrap();
        let mut seen = vec![false; len];
        for row in 0..dimension {
            for col in 0..=row {
                let index = packed_index(row, col).unwrap();
                assert!(index < len);
                assert!(!seen[index]);
                seen[index] = true;
            }
        }
        assert!(seen.iter().all(|hit| *hit));
    }
}

#[test]
fn diagonal_entry_is_followed_by_the_next_row() {
    for row in 0..10usize {
        assert_eq!(packed_index(row, row).unwrap() + 1, packed_index(row + 1, 0).unwrap());
        assert_eq!(packed_index(row + 1, 0), packed_len(row + 1));
    }
}
