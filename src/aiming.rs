use vstd::prelude::*;
use crate::angle::{
    FULL_TURN, abs, norm, shortest, rotate_towards, step_of, normalize_angle, rotate_towards_angle,
    shortest_angle_difference, lemma_shortest_congruent, lemma_norm_periodic, lemma_shortest_norm_from, law_rotate_never_overshoots,
};

verus! {

/// The aim of a turret: `current_angle` is relative to the turret's parent,
/// `target_angle` is the last world bearing it aimed at.
#[derive(Clone, Copy, Debug, PartialEq, Eq, Structural)]
pub struct TurretRotation {
    pub target_angle: i64,
    pub current_angle: i64,
}

/// The aim of a mech's upper body, with the same meaning as `TurretRotation`.
#[derive(Clone, Copy, Debug, PartialEq, Eq, Structural)]
pub struct MechRotation {
    pub target_angle: i64,
    pub current_angle: i64,
}

/// A world bearing seen from a parent turned by `parent_yaw`, in `[0, 360)`.
pub open spec fn local_bearing(world_bearing: int, parent_yaw: int) -> int {
    norm(norm(world_bearing) - norm(parent_yaw))
}

/// The world bearing an aiming pass records. Without a valid target the turret
/// aims at a point ten units out along its current world heading, whose bearing
/// is its local angle plus its parent's yaw.
pub open spec fn aimed_world_angle(current: int, parent_yaw: int, target_bearing: Option<i64>) -> int {
    match target_bearing {
        Some(b) => norm(b as int),
        None => norm(current + parent_yaw),
    }
}

/// The angle a turret holds after one aiming pass: turned toward the local
/// bearing of a valid target, or kept where it was.
pub open spec fn aimed_current_angle(
    current: int,
    parent_yaw: int,
    target_bearing: Option<i64>,
    rate: int,
    dt: int,
) -> int {
    match target_bearing {
        Some(b) => norm(rotate_towards(norm(current), local_bearing(b as int, parent_yaw), rate, dt)),
        None => norm(current),
    }
}

/// Converts a world bearing into a bearing relative to a parent turned by
/// `parent_yaw`.
pub fn local_target_angle(world_bearing: i64, parent_yaw: i64) -> (r: i64)
    ensures
        r == local_bearing(world_bearing as int, parent_yaw as int),
        0 <= r < FULL_TURN,
{
    let w = normalize_angle(world_bearing);
    let p = normalize_angle(parent_yaw);
    normalize_angle(w - p)
}

/// One aiming pass for one turret. `target_bearing` is the world bearing from
/// the turret to its parent's attack target, present only when that target
/// exists. Returns the new local angle and the world bearing aimed at.
pub fn aim_step(
    current_angle: i64,
    parent_yaw: i64,
    target_bearing: Option<i64>,
    rotation_speed: u64,
    delta_ms: u64,
) -> (r: (i64, i64))
    ensures
        r.0 == aimed_current_angle(current_angle as int, parent_yaw as int, target_bearing, rotation_speed as int, delta_ms as int),
        r.1 == aimed_world_angle(current_angle as int, parent_yaw as int, target_bearing),
        0 <= r.0 < FULL_TURN,
        0 <= r.1 < FULL_TURN,
{
    let current = normalize_angle(current_angle);
    match target_bearing {
        Some(b) => {
            let local = local_target_angle(b, parent_yaw);
            let turned = rotate_towards_angle(current, local, rotation_speed, delta_ms);
            (normalize_angle(turned), normalize_angle(b))
        },
        None => {
            let p = normalize_angle(parent_yaw);
            proof {
                vstd::arithmetic::div_mod::lemma_fundamental_div_mod(current_angle as int, 360_000);
                vstd::arithmetic::div_mod::lemma_fundamental_div_mod(parent_yaw as int, 360_000);
                lemma_norm_periodic(
                    current + p,
                    (current_angle as int) / 360_000 + (parent_yaw as int) / 360_000,
                );
            }
            (current, normalize_angle(current + p))
        },
    }
}

/// The aiming pass for a turret: records the world bearing aimed at and turns
/// the turret toward a valid target at its angular rate, or holds its angle.
pub fn turret_control_system(
    rotation: &mut TurretRotation,
    parent_yaw: i64,
    target_bearing: Option<i64>,
    rotation_speed: u64,
    delta_ms: u64,
)
    ensures
        final(rotation).current_angle == aimed_current_angle(
            old(rotation).current_angle as int,
            parent_yaw as int,
            target_bearing,
            rotation_speed as int,
            delta_ms as int,
        ),
        final(rotation).target_angle == aimed_world_angle(old(rotation).current_angle as int, parent_yaw as int, target_bearing),
{
    let (current, target) = aim_step(rotation.current_angle, parent_yaw, target_bearing, rotation_speed, delta_ms);
    rotation.current_angle = current;
    rotation.target_angle = target;
}

/// The aiming pass for a mech's upper body; the same rule as for a turret.
pub fn upper_body_control_system(
    rotation: &mut MechRotation,
    parent_yaw: i64,
    target_bearing: Option<i64>,
    rotation_speed: u64,
    delta_ms: u64,
)
    ensures
        final(rotation).current_angle == aimed_current_angle(
            old(rotation).current_angle as int,
            parent_yaw as int,
            target_bearing,
            rotation_speed as int,
            delta_ms as int,
        ),
        final(rotation).target_angle == aimed_world_angle(old(rotation).current_angle as int, parent_yaw as int, target_bearing),
{
    let (current, target) = aim_step(rotation.current_angle, parent_yaw, target_bearing, rotation_speed, delta_ms);
    rotation.current_angle = current;
    rotation.target_angle = target;
}

/// Copies a turret's aim into the upper-body form.
pub fn turret_rotation_adapter_system(rotation: &TurretRotation) -> (r: MechRotation)
    ensures
        r.target_angle == rotation.target_angle,
        r.current_angle == rotation.current_angle,
{
    MechRotation { target_angle: rotation.target_angle, current_angle: rotation.current_angle }
}

/// Whether a turret heading `heading` (world bearing) faces a target at world
/// bearing `target_bearing` within `angle_tolerance` millidegrees.
pub fn is_turret_facing_target(heading: i64, target_bearing: i64, angle_tolerance: i64) -> (r: bool)
    ensures
        r == (abs(shortest(heading as int, target_bearing as int)) <= angle_tolerance),
{
    let d = shortest_angle_difference(heading, target_bearing);
    let ad = if d < 0 {
        -d
    } else {
        d
    };
    ad <= angle_tolerance
}

/// Whether an upper body faces its target; the same rule as for a turret.
pub fn is_upper_facing_target(heading: i64, target_bearing: i64, angle_tolerance: i64) -> (r: bool)
    ensures
        r == (abs(shortest(heading as int, target_bearing as int)) <= angle_tolerance),
{
    is_turret_facing_target(heading, target_bearing, angle_tolerance)
}

proof fn lemma_norm_idempotent(a: int)
    ensures
        norm(norm(a)) == norm(a),
{
    vstd::arithmetic::div_mod::lemma_small_mod(norm(a) as nat, 360_000);
}

/// Two normalized angles with no rotation between them are equal.
proof fn lemma_zero_difference(a: int, b: int)
    requires
        0 <= a < 360_000,
        0 <= b < 360_000,
        shortest(a, b) == 0,
    ensures
        a == b,
{
    lemma_shortest_congruent(a, b);
    vstd::arithmetic::div_mod::lemma_fundamental_div_mod(b - a, 360_000);
}

/// Running the aiming pass a second time in the same tick, with no time passing,
/// changes neither the angle nor the recorded bearing.
pub proof fn law_aiming_idempotent(current: int, parent_yaw: int, target_bearing: Option<i64>, rate: int, dt: int)
    requires
        rate >= 0,
        dt >= 0,
    ensures
        aimed_current_angle(aimed_current_angle(current, parent_yaw, target_bearing, rate, dt), parent_yaw, target_bearing, rate, 0)
            == aimed_current_angle(current, parent_yaw, target_bearing, rate, dt),
        aimed_world_angle(aimed_current_angle(current, parent_yaw, target_bearing, rate, dt), parent_yaw, target_bearing)
            == aimed_world_angle(current, parent_yaw, target_bearing),
{
    let c1 = aimed_current_angle(current, parent_yaw, target_bearing, rate, dt);
    lemma_norm_idempotent(current);
    assert(step_of(rate, 0) == 0);
    match target_bearing {
        Some(b) => {
            let l = local_bearing(b as int, parent_yaw);
            lemma_norm_idempotent(rotate_towards(norm(current), l, rate, dt));
            lemma_norm_idempotent(norm(b as int) - norm(parent_yaw));
            assert(norm(c1) == c1);
            if shortest(c1, l) == 0 {
                lemma_zero_difference(c1, l);
            } else {
                assert(norm(c1 + 0) == c1);
            }
        },
        None => {},
    }
}

/// The turret angle after `k` aiming passes at the same target bearing and
/// parent yaw.
pub open spec fn aim_run(current: int, parent_yaw: int, bearing: i64, rate: int, dt: int, k: nat) -> int
    decreases k,
{
    if k == 0 {
        current
    } else {
        aim_run(aimed_current_angle(current, parent_yaw, Some(bearing), rate, dt), parent_yaw, bearing, rate, dt, (k - 1) as nat)
    }
}

/// A turret aiming at a fixed world bearing under a parent of fixed yaw, that
/// turns by a positive step each pass, comes to rest exactly on the local
/// bearing after finitely many passes.
pub proof fn law_aim_converges(current: int, parent_yaw: int, bearing: i64, rate: int, dt: int)
    requires
        rate >= 0,
        dt >= 0,
        step_of(rate, dt) > 0,
    ensures
        exists|k: nat| #[trigger] aim_run(current, parent_yaw, bearing, rate, dt, k) == local_bearing(bearing as int, parent_yaw),
    decreases abs(shortest(current, local_bearing(bearing as int, parent_yaw))),
{
    let l = local_bearing(bearing as int, parent_yaw);
    let c1 = aimed_current_angle(current, parent_yaw, Some(bearing), rate, dt);
    let r = rotate_towards(norm(current), l, rate, dt);
    lemma_shortest_norm_from(current, l);
    law_rotate_never_overshoots(norm(current), l, rate, dt);
    lemma_shortest_norm_from(r, l);
    lemma_norm_idempotent(norm(bearing as int) - norm(parent_yaw));
    assert(aim_run(current, parent_yaw, bearing, rate, dt, 1) == aim_run(c1, parent_yaw, bearing, rate, dt, 0));
    if abs(shortest(current, l)) > step_of(rate, dt) {
        law_aim_converges(c1, parent_yaw, bearing, rate, dt);
        let k = choose|k: nat| #[trigger] aim_run(c1, parent_yaw, bearing, rate, dt, k) == l;
        assert(aim_run(current, parent_yaw, bearing, rate, dt, k + 1) == aim_run(c1, parent_yaw, bearing, rate, dt, k));
    }
}

} // verus!
