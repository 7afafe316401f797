use vstd::prelude::*;

verus! {

/// Fixed-point angle scale: `PI_FIXED` angle steps are half a turn
/// (pi radians), so the aim domain `(-pi, pi]` is
/// `(-PI_FIXED, PI_FIXED]`.  A full turn, `2 * PI_FIXED`, is a power of
/// two and `PI_FIXED` is divisible by 8, which keeps the octant
/// boundaries at odd multiples of an eighth of `PI_FIXED` exact.
pub const PI_FIXED: i64 = 8192;

/// An eighth of a half turn: the octant boundaries sit at odd
/// multiples of this step.
pub const PI_8_FIXED: i64 = 1024;

/// Angles handed to `wrap_angle` must stay well under `i64` range so
/// the shift to a non-negative value cannot overflow.
pub const ANGLE_INPUT_LIMIT: i64 = 0x1000_0000_0000_0000;

pub open spec fn angle_in_domain(a: i64) -> bool {
    -PI_FIXED < a <= PI_FIXED
}

/// The representative of an angle in the domain `(-pi, pi]`, congruent
/// to it modulo a full turn.
pub open spec fn spec_wrap_angle(a: int) -> int {
    let m = a % (2 * PI_FIXED);
    if m <= PI_FIXED {
        m
    } else {
        m - 2 * PI_FIXED
    }
}

/// Wrap an arbitrary angle into the domain `(-pi, pi]`, keeping it
/// congruent modulo a full turn.
pub fn wrap_angle(a: i64) -> (r: i64)
    requires
        -ANGLE_INPUT_LIMIT <= a <= ANGLE_INPUT_LIMIT,
    ensures
        r == spec_wrap_angle(a as int),
        angle_in_domain(r),
        (a - r) % (2 * PI_FIXED) == 0,
{
    // 2^61 is a multiple of the full turn 2 * PI_FIXED == 2^14, so the
    // shift leaves the angle's class modulo a full turn unchanged.
    let shifted: i64 = a + 0x2000_0000_0000_0000;
    let m: i64 = shifted % (2 * PI_FIXED);
    proof {
        assert(0x2000_0000_0000_0000int % (2 * PI_FIXED) == 0);
        assert(shifted >= 0);
        assert(m == shifted as int % (2 * PI_FIXED));
        assert(shifted as int % (2 * PI_FIXED) == a as int % (2 * PI_FIXED)) by {
            vstd::arithmetic::div_mod::lemma_mod_multiples_vanish(
                0x8_0000_0000_0000,
                a as int,
                2 * PI_FIXED,
            );
        }
        assert((a - m) % (2 * PI_FIXED) == 0) by {
            vstd::arithmetic::div_mod::lemma_sub_mod_noop(
                shifted as int,
                m as int,
                2 * PI_FIXED,
            );
            vstd::arithmetic::div_mod::lemma_mod_self_0(2 * PI_FIXED);
            vstd::arithmetic::div_mod::lemma_mod_twice(shifted as int, 2 * PI_FIXED);
            vstd::arithmetic::div_mod::lemma_small_mod(0nat, (2 * PI_FIXED) as nat);
        }
    }
    if m <= PI_FIXED {
        m
    } else {
        proof {
            assert(((a - (m - 2 * PI_FIXED)) - (a - m)) % (2 * PI_FIXED) == 0);
            vstd::arithmetic::div_mod::lemma_add_mod_noop(
                (a - m) as int,
                (2 * PI_FIXED) as int,
                2 * PI_FIXED,
            );
            vstd::arithmetic::div_mod::lemma_mod_self_0(2 * PI_FIXED);
            vstd::arithmetic::div_mod::lemma_mod_twice((a - m) as int, 2 * PI_FIXED);
            vstd::arithmetic::div_mod::lemma_small_mod(0nat, (2 * PI_FIXED) as nat);
        }
        m - 2 * PI_FIXED
    }
}

/// The aim octant of an angle, per the boundary table: boundaries at
/// odd multiples of pi/8; as the angle rises from 0 to pi the octant
/// runs 6, 5, 4, 3, 2; as it falls from 0 to -pi it runs 6, 7, 0, 1, 2;
/// angle 0 maps to octant 6.  Any angle outside `(-pi, pi]` falls back
/// to octant 0.
pub open spec fn spec_octant(a: i64) -> u32 {
    if a > 0 {
        if a < PI_8_FIXED {
            6u32
        } else if a < 3 * PI_8_FIXED {
            5u32
        } else if a < 5 * PI_8_FIXED {
            4u32
        } else if a < 7 * PI_8_FIXED {
            3u32
        } else if a <= PI_FIXED {
            2u32
        } else {
            0u32
        }
    } else {
        if a >= -PI_8_FIXED {
            6u32
        } else if a >= -3 * PI_8_FIXED {
            7u32
        } else if a >= -5 * PI_8_FIXED {
            0u32
        } else if a >= -7 * PI_8_FIXED {
            1u32
        } else if a >= -PI_FIXED {
            2u32
        } else {
            0u32
        }
    }
}

pub fn octant_of_angle(a: i64) -> (r: u32)
    ensures
        r == spec_octant(a),
        r < 8,
{
    if a > 0 {
        if a < PI_8_FIXED {
            6
        } else if a < 3 * PI_8_FIXED {
            5
        } else if a < 5 * PI_8_FIXED {
            4
        } else if a < 7 * PI_8_FIXED {
            3
        } else if a <= PI_FIXED {
            2
        } else {
            0
        }
    } else {
        if a >= -PI_8_FIXED {
            6
        } else if a >= -3 * PI_8_FIXED {
            7
        } else if a >= -5 * PI_8_FIXED {
            0
        } else if a >= -7 * PI_8_FIXED {
            1
        } else if a >= -PI_FIXED {
            2
        } else {
            0
        }
    }
}

/// Linear blend from `from` toward `to` by the fraction `num / den`,
/// rounding the step toward zero.
pub open spec fn spec_lerp(from: i64, to: i64, num: u64, den: u64) -> int {
    if to >= from {
        from + (to - from) * num / (den as int)
    } else {
        from - (from - to) * num / (den as int)
    }
}

/// Blend an angle toward a target by the elapsed fraction of a timer:
/// the result always lies between the two endpoints.
pub fn lerp_angle(from: i64, to: i64, num: u64, den: u64) -> (r: i64)
    requires
        angle_in_domain(from),
        angle_in_domain(to),
        0 < den,
        num <= den,
    ensures
        r == spec_lerp(from, to, num, den),
        from <= to ==> from <= r <= to,
        to <= from ==> to <= r <= from,
{
    if to >= from {
        let diff: u64 = (to - from) as u64;
        proof {
            lemma_scaled_step_bounded(diff as int, num as int, den as int);
            assert(diff as int * num as int <= 0x1_0000_0000_0000_0000_0000)
                by (nonlinear_arith)
                requires diff <= 2 * PI_FIXED && num < 0x1_0000_0000_0000_0000;
        }
        let step: u64 = ((diff as u128 * num as u128) / den as u128) as u64;
        from + step as i64
    } else {
        let diff: u64 = (from - to) as u64;
        proof {
            lemma_scaled_step_bounded(diff as int, num as int, den as int);
            assert(diff as int * num as int <= 0x1_0000_0000_0000_0000_0000)
                by (nonlinear_arith)
                requires diff <= 2 * PI_FIXED && num < 0x1_0000_0000_0000_0000;
        }
        let step: u64 = ((diff as u128 * num as u128) / den as u128) as u64;
        from - step as i64
    }
}

/// A step scaled by a fraction `num / den <= 1` never exceeds the step.
proof fn lemma_scaled_step_bounded(diff: int, num: int, den: int)
    requires
        diff >= 0,
        num >= 0,
        den > 0,
        num <= den,
    ensures
        0 <= diff * num / den <= diff,
{
    assert(diff * num >= 0) by (nonlinear_arith)
        requires diff >= 0 && num >= 0;
    assert(diff * num / den >= 0) by {
        vstd::arithmetic::div_mod::lemma_div_pos_is_pos(diff * num, den);
    }
    assert(diff * num <= diff * den) by (nonlinear_arith)
        requires diff >= 0 && num <= den;
    assert(diff * num / den <= diff * den / den) by {
        vstd::arithmetic::div_mod::lemma_div_is_ordered(diff * num, diff * den, den);
    }
    assert(diff * den / den == diff) by {
        vstd::arithmetic::div_mod::lemma_div_by_multiple(diff, den);
    }
}

} // verus!
