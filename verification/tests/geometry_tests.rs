use zombie_survival::geometry::{circles_collide, Vec2, UNIT};

fn v(x: i64, y: i64) -> Vec2 {
    Vec2 { x, y }
}

#[test]
fn overlapping_circles_collide() {
    assert!(circles_collide(10, v(0, 0), 10, v(15, 0)));
    assert!(circles_collide(10, v(0, 0), 10, v(0, -19)));
}

#[test]
fn separated_circles_do_not_collide() {
    assert!(!circles_collide(10, v(0, 0), 10, v(25, 0)));
    assert!(!circles_collide(1, v(0, 0), 1, v(3, 3)));
}

#[test]
fn touching_circles_do_not_collide() {
    // Strict inequality: distance exactly equal to the radius sum is
    // not an overlap.
    assert!(!circles_collide(10, v(0, 0), 10, v(20, 0)));
}

#[test]
fn coincident_centers_collide_without_sqrt_trouble() {
    assert!(circles_collide(1, v(5, 5), 1, v(5, 5)));
    assert!(circles_collide(0, v(5, 5), 1, v(5, 5)));
}

#[test]
fn zero_radius_point_colliders_are_legal() {
    // Two coincident points: distance 0, radius sum 0, no overlap.
    assert!(!circles_collide(0, v(7, 7), 0, v(7, 7)));
    // A point inside a circle overlaps it.
    assert!(circles_collide(0, v(1, 0), 5, v(0, 0)));
}

#[test]
fn negative_radius_is_well_defined() {
    // Degenerate radii go through the same squared comparison and
    // must not panic.
    let _ = circles_collide(-5, v(0, 0), -5, v(1, 0));
    assert!(!circles_collide(-5, v(0, 0), 3, v(10, 0)));
}

#[test]
fn overlap_is_symmetric() {
    let cases = [
        (10i64, v(0, 0), 10i64, v(15, 0)),
        (10, v(0, 0), 10, v(25, 0)),
        (0, v(3, 4), 5, v(0, 0)),
        (7, v(-3, 9), 2, v(4, -1)),
        (32 * UNIT, v(0, 0), 8 * UNIT, v(39 * UNIT, 0)),
    ];
    for (r1, p1, r2, p2) in cases {
        assert_eq!(circles_collide(r1, p1, r2, p2), circles_collide(r2, p2, r1, p1));
    }
}

#[test]
fn overlap_matches_sqrt_reference() {
    // Property check against a floating-point sqrt-based reference,
    // on a grid that avoids exact-boundary ties.
    let radii = [0i64, 1, 3, 10, 50];
    let coords = [-60i64, -11, 0, 7, 33, 59];
    for &r1 in &radii {
        for &r2 in &radii {
            for &x in &coords {
                for &y in &coords {
                    let p1 = v(0, 0);
                    let p2 = v(x, y);
                    let dist_sq = (x * x + y * y) as f64;
                    let sum = (r1 + r2) as f64;
                    if dist_sq.sqrt() == sum {
                        continue;
                    }
                    let reference = dist_sq.sqrt() < sum;
                    assert_eq!(circles_collide(r1, p1, r2, p2), reference);
                }
            }
        }
    }
}
