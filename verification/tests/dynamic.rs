use gamlss_family::multivariate::normal::dynamic::DynamicCoordinate;
use gamlss_family::ModelError;
use gamlss_family::multivariate::normal::DynMvNormalCholeskyDefault;

type Family = DynMvNormalCholeskyDefault;

#[test]
fn dynamic_constructor_rejects_zero_and_unrepresentable_dimensions() {
    assert_eq!(
        Family::new(0),
        Err(ModelError::InvalidParameter {
            parameter: "dimension",
            expected: "positive",
        })
    );
    assert!(matches!(
        Family::new(usize::MAX),
        Err(ModelError::ArithmeticOverflow { .. })
    ));
    assert_eq!(Family::new(3).unwrap().dimension(), 3);
    assert_eq!(Family::cholesky_len_for_dimension(3), Some(6));
    assert_eq!(Family::cholesky_len_for_dimension(usize::MAX), None);
}

#[test]
fn dynamic_parameter_count_is_means_plus_packed_cholesky() {
    assert_eq!(Family::new(1).unwrap().dynamic_parameter_count(), 2);
    assert_eq!(Family::new(3).unwrap().dynamic_parameter_count(), 9);
    assert_eq!(Family::new(4).unwrap().dynamic_parameter_count(), 14);
}

#[test]
fn dynamic_coordinates_name_means_then_packed_cholesky_entries() {
    let family = Family::new(2).unwrap();
    let coordinates: Vec<_> = (0..6)
        .map(|index| family.dynamic_parameter_coordinate(index))
        .collect();
    assert_eq!(
        coordinates,
        vec![
            DynamicCoordinate::Mean { component: 0 },
            DynamicCoordinate::Mean { component: 1 },
            DynamicCoordinate::CholeskyScale { row: 0, col: 0 },
            DynamicCoordinate::CholeskyScale { row: 1, col: 0 },
            DynamicCoordinate::CholeskyScale { row: 1, col: 1 },
            DynamicCoordinate::Whole,
        ]
    );
}

#[test]
fn split_flat_separates_means_from_cholesky_block() {
    let family = Family::new(2).unwrap();
    let (mu, cholesky) = family.split_flat(&[1.0, 2.0, 3.0, 4.0, 5.0]).unwrap();
    assert_eq!(mu, vec![1.0, 2.0]);
    assert_eq!(cholesky.dimension(), 2);
    assert_eq!(cholesky.values(), &[3.0, 4.0, 5.0]);
    assert_eq!(cholesky.get(1, 0), Some(4.0));
    assert!(family.split_flat(&[1.0, 2.0, 3.0]).is_none());
    let copy = family;
    assert_eq!(copy.clone().dimension(), 2);
}

#[test]
fn write_flat_joins_means_and_cholesky_block() {
    let family = Family::new(2).unwrap();
    let cholesky = gamlss_family::PackedLowerTriangular::try_new(2, vec![3.0, 4.0, 5.0]).unwrap();
    let mut out = [0.0; 5];
    assert!(family.write_flat(&[1.0, 2.0], &cholesky, &mut out));
    assert_eq!(out, [1.0, 2.0, 3.0, 4.0, 5.0]);
    let (mu, split) = family.split_flat(&out).unwrap();
    assert_eq!(mu, vec![1.0, 2.0]);
    assert_eq!(split, cholesky);

    let mut short = [7.0; 4];
    assert!(!family.write_flat(&[1.0, 2.0], &cholesky, &mut short));
    assert_eq!(short, [7.0; 4]);
    assert!(!family.write_flat(&[1.0], &cholesky, &mut out));
    assert_eq!(Family::default().dimension(), 1);
    assert_eq!(Family::default(), Family::new(1).unwrap());
}
