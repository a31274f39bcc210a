use vstd::prelude::*;

verus! {

/// One full turn, in millidegrees.
pub const FULL_TURN: i64 = 360_000;

/// Half a turn, in millidegrees.
pub const HALF_TURN: i64 = 180_000;

/// The representative of `a` in `[0, FULL_TURN)`.
pub open spec fn norm(a: int) -> int {
    a % 360_000
}

/// The signed rotation in `(-HALF_TURN, HALF_TURN]` that takes `from` onto `to`.
pub open spec fn shortest(from: int, to: int) -> int {
    let d = (to - from) % 360_000;
    if d > 180_000 {
        d - 360_000
    } else {
        d
    }
}

pub open spec fn abs(x: int) -> int {
    if x < 0 {
        -x
    } else {
        x
    }
}

pub open spec fn sign(x: int) -> int {
    if x > 0 {
        1
    } else if x < 0 {
        -1
    } else {
        0
    }
}

/// How far a rate in millidegrees per second turns in `dt` milliseconds.
pub open spec fn step_of(rate: int, dt: int) -> int {
    (rate * dt) / 1000
}

/// The angle `rotate_towards_angle` returns.
pub open spec fn rotate_towards(current: int, target: int, rate: int, dt: int) -> int {
    let d = shortest(current, target);
    if abs(d) <= step_of(rate, dt) {
        target
    } else {
        norm(current + sign(d) * step_of(rate, dt))
    }
}

/// Two angles that differ by a whole number of turns have one representative.
pub proof fn lemma_norm_periodic(a: int, k: int)
    ensures
        norm(a + 360_000 * k) == norm(a),
{
    vstd::arithmetic::div_mod::lemma_mod_multiples_vanish(k, a, 360_000);
}

/// `s` is the shortest rotation from `from` to `to` when it lies in
/// `(-HALF_TURN, HALF_TURN]` and differs from `to - from` by whole turns.
pub proof fn lemma_shortest_unique(from: int, to: int, s: int, k: int)
    requires
        -180_000 < s <= 180_000,
        to - from == s + 360_000 * k,
    ensures
        shortest(from, to) == s,
{
    lemma_norm_periodic(s, k);
    if s >= 0 {
        vstd::arithmetic::div_mod::lemma_small_mod(s as nat, 360_000);
    } else {
        lemma_norm_periodic(s + 360_000, -1);
        vstd::arithmetic::div_mod::lemma_small_mod((s + 360_000) as nat, 360_000);
    }
}

/// The shortest rotation taken, plus a whole number of turns, is the plain difference.
pub proof fn lemma_shortest_congruent(from: int, to: int)
    ensures
        -180_000 < shortest(from, to) <= 180_000,
        (to - from - shortest(from, to)) % 360_000 == 0,
{
    let d = to - from;
    vstd::arithmetic::div_mod::lemma_fundamental_div_mod(d, 360_000);
    let q = d / 360_000;
    if d % 360_000 > 180_000 {
        assert(d - shortest(from, to) == 360_000 * (q + 1));
        vstd::arithmetic::div_mod::lemma_mod_multiples_basic(q + 1, 360_000);
    } else {
        assert(d - shortest(from, to) == 360_000 * q);
        vstd::arithmetic::div_mod::lemma_mod_multiples_basic(q, 360_000);
    }
}

/// Normalizing the starting angle does not change the shortest rotation.
pub proof fn lemma_shortest_norm_from(from: int, to: int)
    ensures
        shortest(norm(from), to) == shortest(from, to),
{
    lemma_shortest_congruent(from, to);
    let s = shortest(from, to);
    vstd::arithmetic::div_mod::lemma_fundamental_div_mod(from, 360_000);
    vstd::arithmetic::div_mod::lemma_fundamental_div_mod(to - from - s, 360_000);
    let k = (to - from - s) / 360_000 + from / 360_000;
    lemma_shortest_unique(norm(from), to, s, k);
}

/// Normalizing an angle into `[0, 360)` degrees.
pub fn normalize_angle(angle: i64) -> (r: i64)
    ensures
        r == norm(angle as int),
        0 <= r < FULL_TURN,
{
    let m = angle % FULL_TURN;
    let r = if m < 0 {
        m + FULL_TURN
    } else {
        m
    };
    r
}

/// The signed shortest rotation from `from` to `to`, in `(-180, 180]` degrees.
pub fn shortest_angle_difference(from: i64, to: i64) -> (r: i64)
    ensures
        r == shortest(from as int, to as int),
        -HALF_TURN < r <= HALF_TURN,
{
    let f = normalize_angle(from);
    let t = normalize_angle(to);
    let d = t - f;
    let r = if d > HALF_TURN {
        d - FULL_TURN
    } else if d <= -HALF_TURN {
        d + FULL_TURN
    } else {
        d
    };
    proof {
        vstd::arithmetic::div_mod::lemma_fundamental_div_mod(from as int, 360_000);
        vstd::arithmetic::div_mod::lemma_fundamental_div_mod(to as int, 360_000);
        let kf = (from as int) / 360_000;
        let kt = (to as int) / 360_000;
        if d > HALF_TURN {
            lemma_shortest_unique(from as int, to as int, r as int, kt - kf + 1);
        } else if d <= -HALF_TURN {
            lemma_shortest_unique(from as int, to as int, r as int, kt - kf - 1);
        } else {
            lemma_shortest_unique(from as int, to as int, r as int, kt - kf);
        }
    }
    r
}

/// Turns `current_angle` toward `target_angle` by at most `rotation_speed`
/// (millidegrees per second) times `delta_ms` (milliseconds), along the shorter
/// way round. When the remaining rotation fits in that step the result is
/// `target_angle` itself; otherwise it is normalized into `[0, 360)` degrees.
pub fn rotate_towards_angle(current_angle: i64, target_angle: i64, rotation_speed: u64, delta_ms: u64) -> (r: i64)
    ensures
        r == rotate_towards(current_angle as int, target_angle as int, rotation_speed as int, delta_ms as int),
{
    let a = rotation_speed as u128;
    let b = delta_ms as u128;
    assert(a * b <= 0xffff_ffff_ffff_ffff_u128 * 0xffff_ffff_ffff_ffff_u128) by (nonlinear_arith)
        requires
            a <= 0xffff_ffff_ffff_ffff_u128,
            b <= 0xffff_ffff_ffff_ffff_u128,
    ;
    let step = a * b / 1000;
    let d = shortest_angle_difference(current_angle, target_angle);
    let ad: i64 = if d < 0 {
        -d
    } else {
        d
    };
    if (ad as u128) <= step {
        target_angle
    } else {
        let s = step as i64;
        let c = normalize_angle(current_angle);
        proof {
            vstd::arithmetic::div_mod::lemma_fundamental_div_mod(current_angle as int, 360_000);
            let k = -((current_angle as int) / 360_000);
            if d > 0 {
                lemma_norm_periodic(current_angle + s, k);
            } else {
                lemma_norm_periodic(current_angle - s, k);
            }
        }
        if d > 0 {
            normalize_angle(c + s)
        } else {
            normalize_angle(c - s)
        }
    }
}

/// Normalizing lands in `[0, 360)` degrees, and adding whole turns to an angle
/// does not change its normalized value.
pub proof fn law_normalize_range_and_period(a: int, k: int)
    ensures
        0 <= norm(a) < 360_000,
        norm(a) == norm(a + 360_000 * k),
{
    lemma_norm_periodic(a, k);
}

/// The shortest difference lies in `(-180, 180]` degrees, and `from` plus that
/// difference is `to` up to whole turns.
pub proof fn law_shortest_difference(from: int, to: int)
    ensures
        -180_000 < shortest(from, to) <= 180_000,
        norm(from + shortest(from, to)) == norm(to),
{
    lemma_shortest_congruent(from, to);
    let s = shortest(from, to);
    vstd::arithmetic::div_mod::lemma_fundamental_div_mod(to - from - s, 360_000);
    let k = (to - from - s) / 360_000;
    lemma_norm_periodic(from + s, k);
}

/// A bounded rotation step never overshoots: the remaining distance to the
/// target does not grow, it shrinks by exactly the step while the step is
/// smaller, and the target is reached exactly once it is within one step.
pub proof fn law_rotate_never_overshoots(current: int, target: int, rate: int, dt: int)
    requires
        rate >= 0,
        dt >= 0,
    ensures
        abs(shortest(rotate_towards(current, target, rate, dt), target)) <= abs(shortest(current, target)),
        abs(shortest(current, target)) <= step_of(rate, dt) ==> rotate_towards(current, target, rate, dt) == target,
        abs(shortest(current, target)) > step_of(rate, dt) ==> abs(shortest(rotate_towards(current, target, rate, dt), target))
            == abs(shortest(current, target)) - step_of(rate, dt),
{
    let d = shortest(current, target);
    let st = step_of(rate, dt);
    vstd::arithmetic::mul::lemma_mul_nonnegative(rate, dt);
    vstd::arithmetic::div_mod::lemma_div_pos_is_pos(rate * dt, 1000);
    lemma_shortest_congruent(current, target);
    if abs(d) <= st {
        lemma_shortest_unique(target, target, 0, 0);
    } else {
        let moved = current + sign(d) * st;
        let r = norm(moved);
        vstd::arithmetic::div_mod::lemma_fundamental_div_mod(moved, 360_000);
        vstd::arithmetic::div_mod::lemma_fundamental_div_mod(target - current - d, 360_000);
        let k1 = (target - current - d) / 360_000;
        let q2 = moved / 360_000;
        assert(target - r == (d - sign(d) * st) + 360_000 * (k1 + q2));
        lemma_shortest_unique(r, target, d - sign(d) * st, k1 + q2);
    }
}

} // verus!
