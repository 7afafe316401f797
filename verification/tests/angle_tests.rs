use zombie_survival::angle::{
    lerp_angle, octant_of_angle, wrap_angle, PI_8_FIXED, PI_FIXED,
};

#[test]
fn octant_of_zero_is_six() {
    assert_eq!(octant_of_angle(0), 6);
}

#[test]
fn octant_of_pi_is_two() {
    assert_eq!(octant_of_angle(PI_FIXED), 2);
}

#[test]
fn octant_of_minus_pi_is_two() {
    assert_eq!(octant_of_angle(-PI_FIXED), 2);
}

#[test]
fn octant_just_above_pi_eighth_is_five() {
    // The boundary is exclusive on the increasing side.
    assert_eq!(octant_of_angle(PI_8_FIXED + 1), 5);
    assert_eq!(octant_of_angle(PI_8_FIXED), 5);
    assert_eq!(octant_of_angle(PI_8_FIXED - 1), 6);
}

#[test]
fn octants_walk_the_positive_half_turn() {
    assert_eq!(octant_of_angle(2 * PI_8_FIXED), 5);
    assert_eq!(octant_of_angle(4 * PI_8_FIXED), 4);
    assert_eq!(octant_of_angle(6 * PI_8_FIXED), 3);
    assert_eq!(octant_of_angle(PI_FIXED - 1), 2);
}

#[test]
fn octants_walk_the_negative_half_turn() {
    assert_eq!(octant_of_angle(-PI_8_FIXED), 6);
    assert_eq!(octant_of_angle(-PI_8_FIXED - 1), 7);
    assert_eq!(octant_of_angle(-4 * PI_8_FIXED), 0);
    assert_eq!(octant_of_angle(-6 * PI_8_FIXED), 1);
    assert_eq!(octant_of_angle(-PI_FIXED + 1), 2);
}

#[test]
fn out_of_domain_angle_falls_back_to_zero() {
    assert_eq!(octant_of_angle(PI_FIXED + 1), 0);
    assert_eq!(octant_of_angle(-PI_FIXED - 1), 0);
}

#[test]
fn wrap_angle_keeps_domain_values() {
    assert_eq!(wrap_angle(0), 0);
    assert_eq!(wrap_angle(PI_FIXED), PI_FIXED);
    assert_eq!(wrap_angle(-PI_FIXED + 1), -PI_FIXED + 1);
}

#[test]
fn wrap_angle_wraps_out_of_domain_values() {
    // Minus pi is outside the half-open domain and lands on plus pi.
    assert_eq!(wrap_angle(-PI_FIXED), PI_FIXED);
    assert_eq!(wrap_angle(PI_FIXED + 1), -PI_FIXED + 1);
    assert_eq!(wrap_angle(2 * PI_FIXED + 5), 5);
    assert_eq!(wrap_angle(-2 * PI_FIXED - 5), -5);
    assert_eq!(wrap_angle(10 * PI_FIXED), 0);
}

#[test]
fn lerp_angle_blends_by_the_fraction() {
    assert_eq!(lerp_angle(0, 1000, 1, 2), 500);
    assert_eq!(lerp_angle(1000, 0, 1, 2), 500);
    assert_eq!(lerp_angle(-400, 400, 1, 4), -200);
    assert_eq!(lerp_angle(0, 999, 1, 3), 333);
}

#[test]
fn lerp_angle_at_fraction_bounds() {
    assert_eq!(lerp_angle(-123, 456, 0, 7), -123);
    assert_eq!(lerp_angle(-123, 456, 7, 7), 456);
    assert_eq!(lerp_angle(300, 300, 3, 5), 300);
}
