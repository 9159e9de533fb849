use ferrux_projection_matrix::ProjectionMatrixBuilder;
use ferrux_projection_matrix::binary32::FULL_TURN_BITS;
use ferrux_projection_matrix::binary32::ONE_BITS;
use ferrux_projection_matrix::binary32::ZERO_BITS;
use ferrux_projection_matrix::binary32::lt_bits;

/// Sample values covering both signs, both zeros, subnormals, the
/// infinities and NaN.
fn samples() -> Vec<f32> {
    vec![
        f32::NEG_INFINITY,
        f32::MIN,
        -1000.0,
        -360.0,
        -2.5,
        -1.0,
        -f32::MIN_POSITIVE,
        -1.0e-40,
        -0.0,
        0.0,
        1.0e-40,
        f32::MIN_POSITIVE,
        0.5,
        1.0,
        2.5,
        90.0,
        359.99997,
        360.0,
        360.00003,
        1000.0,
        f32::MAX,
        f32::INFINITY,
        f32::NAN,
    ]
}

#[test]
fn lt_bits_matches_binary32_order() {
    for &a in samples().iter() {
        for &b in samples().iter() {
            assert_eq!(
                lt_bits(a.to_bits(), b.to_bits()),
                a < b,
                "order disagrees on {a} and {b}"
            );
        }
    }
}

#[test]
fn named_bit_patterns() {
    assert_eq!(ZERO_BITS, 0.0f32.to_bits());
    assert_eq!(ONE_BITS, 1.0f32.to_bits());
    assert_eq!(FULL_TURN_BITS, 360.0f32.to_bits());
}

#[test]
fn fov_range_is_the_open_interval() {
    let accepted = [1.0e-40f32, f32::MIN_POSITIVE, 0.1, 1.0, 90.0, 180.0, 359.99997];
    for &fov in accepted.iter() {
        assert!(ProjectionMatrixBuilder::fov_in_range(fov.to_bits()), "{fov} refused");
    }
    let refused = [
        f32::NEG_INFINITY,
        -360.0f32,
        -1.0,
        -f32::MIN_POSITIVE,
        -0.0,
        0.0,
        360.0,
        360.00003,
        1000.0,
        f32::INFINITY,
        f32::NAN,
    ];
    for &fov in refused.iter() {
        assert!(!ProjectionMatrixBuilder::fov_in_range(fov.to_bits()), "{fov} accepted");
    }
}

#[test]
fn fov_range_stores_through_setter() {
    let b = ProjectionMatrixBuilder::new().set_fov(180.0f32.to_bits());
    assert_eq!(f32::from_bits(b.fov), 180.0);
    let b = b.set_fov(0.125f32.to_bits());
    assert_eq!(f32::from_bits(b.fov), 0.125);
}
