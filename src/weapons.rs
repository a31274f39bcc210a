use vstd::prelude::*;
use crate::angle::{abs, shortest, shortest_angle_difference};
use crate::aiming::TurretRotation;
use crate::plane::magnitude;

verus! {

/// A turret whose aim is off by at most this many millidegrees may fire.
pub const ANGLE_TOLERANCE: i64 = 5_000;

/// Targets within this distance (thousandths of a unit) may be fired upon.
pub const ATTACK_RANGE: u32 = 10_000;

/// What a weapon does: milliseconds between shots, damage in thousandths of a
/// hit point, range in thousandths of a unit, shell speed in thousandths of a
/// unit per second.
#[derive(Clone, Copy, Debug, PartialEq, Eq, Structural)]
pub struct WeaponStats {
    pub fire_rate: u32,
    pub damage: u32,
    pub range: u32,
    pub projectile_speed: u32,
}

/// A weapon mounted on a hardpoint, with the milliseconds since its last shot.
#[derive(Debug)]
pub struct MechWeapon {
    pub weapon_stats: WeaponStats,
    pub hardpoint_id: String,
    pub last_fire_time: u64,
}

/// A cannon: its weapon stats and barrel length in thousandths of a unit.
#[derive(Clone, Copy, Debug, PartialEq, Eq, Structural)]
pub struct CannonWeapon {
    pub weapon_stats: WeaponStats,
    pub barrel_length: u32,
}

impl CannonWeapon {
    /// The standard cannon: a shot every 1.5 s, 25 damage, range 15, shells at 15.
    pub fn default() -> (r: CannonWeapon)
        ensures
            r.weapon_stats == (WeaponStats { fire_rate: 1_500, damage: 25_000, range: 15_000, projectile_speed: 15_000 }),
            r.barrel_length == 500,
    {
        CannonWeapon {
            weapon_stats: WeaponStats { fire_rate: 1_500, damage: 25_000, range: 15_000, projectile_speed: 15_000 },
            barrel_length: 500,
        }
    }

    pub fn new(fire_rate: u32, damage: u32, range: u32, projectile_speed: u32, barrel_length: u32) -> (r: CannonWeapon)
        ensures
            r.weapon_stats == (WeaponStats { fire_rate, damage, range, projectile_speed }),
            r.barrel_length == barrel_length,
    {
        CannonWeapon { weapon_stats: WeaponStats { fire_rate, damage, range, projectile_speed }, barrel_length }
    }

    /// A slow, hard-hitting cannon.
    pub fn heavy() -> (r: CannonWeapon)
        ensures
            r.weapon_stats == (WeaponStats { fire_rate: 2_000, damage: 40_000, range: 20_000, projectile_speed: 12_000 }),
            r.barrel_length == 700,
    {
        CannonWeapon {
            weapon_stats: WeaponStats { fire_rate: 2_000, damage: 40_000, range: 20_000, projectile_speed: 12_000 },
            barrel_length: 700,
        }
    }

    /// A quick, light cannon.
    pub fn light() -> (r: CannonWeapon)
        ensures
            r.weapon_stats == (WeaponStats { fire_rate: 800, damage: 15_000, range: 12_000, projectile_speed: 18_000 }),
            r.barrel_length == 400,
    {
        CannonWeapon {
            weapon_stats: WeaponStats { fire_rate: 800, damage: 15_000, range: 12_000, projectile_speed: 18_000 },
            barrel_length: 400,
        }
    }
}

/// A standard cannon mounted on the named hardpoint, ready to fire.
pub fn create_cannon_weapon(hardpoint_id: String) -> (r: MechWeapon)
    ensures
        r.weapon_stats == (WeaponStats { fire_rate: 1_500, damage: 25_000, range: 15_000, projectile_speed: 15_000 }),
        r.hardpoint_id@ == hardpoint_id@,
        r.last_fire_time == 0,
{
    let cannon = CannonWeapon::default();
    MechWeapon { weapon_stats: cannon.weapon_stats, hardpoint_id, last_fire_time: 0 }
}

/// The target offset `(dx, dz)` lies within `range`.
pub open spec fn within_range(dx: int, dz: int, range: int) -> bool {
    dx * dx + dz * dz <= range * range
}

/// The turret's angular error is within tolerance.
pub open spec fn aligned(rotation: TurretRotation) -> bool {
    abs(shortest(rotation.current_angle as int, rotation.target_angle as int)) <= ANGLE_TOLERANCE
}

/// A valid target lies in range and the turret is aligned with it.
pub open spec fn fire_solution(rotation: TurretRotation, target_offset: Option<(i64, i64)>, range: int) -> bool {
    match target_offset {
        Some(o) => within_range(o.0 as int, o.1 as int, range) && aligned(rotation),
        None => false,
    }
}

/// The time since the last shot after `dt` more milliseconds, held at the
/// largest value the counter takes.
pub open spec fn elapsed(last: int, dt: int) -> int {
    if last + dt > u64::MAX {
        u64::MAX as int
    } else {
        last + dt
    }
}

/// Whether a weapon fires this tick.
pub open spec fn fires(last: int, dt: int, solution: bool, fire_rate: int) -> bool {
    solution && elapsed(last, dt) >= fire_rate
}

/// The time since the last shot at the end of this tick.
pub open spec fn last_after(last: int, dt: int, solution: bool, fire_rate: int) -> int {
    if fires(last, dt, solution, fire_rate) {
        0
    } else {
        elapsed(last, dt)
    }
}

fn offset_within(dx: i64, dz: i64, range: u32) -> (r: bool)
    ensures
        r == within_range(dx as int, dz as int, range as int),
{
    let x = magnitude(dx);
    let z = magnitude(dz);
    let g = range as u128;
    assert(x * x <= 0x4000_0000_0000_0000_0000_0000_0000_0000) by (nonlinear_arith)
        requires
            x <= 0x8000_0000_0000_0000,
    ;
    assert(z * z <= 0x4000_0000_0000_0000_0000_0000_0000_0000) by (nonlinear_arith)
        requires
            z <= 0x8000_0000_0000_0000,
    ;
    assert(g * g <= 0xffff_ffff * 0xffff_ffff) by (nonlinear_arith)
        requires
            g <= 0xffff_ffff,
    ;
    assert(x * x == dx * dx) by (nonlinear_arith)
        requires
            x == abs(dx as int),
    ;
    assert(z * z == dz * dz) by (nonlinear_arith)
        requires
            z == abs(dz as int),
    ;
    let xx = x * x;
    let zz = z * z;
    let gg = g * g;
    if xx > gg {
        false
    } else {
        xx + zz <= gg
    }
}

/// One tick of fire control for one weapon. Time since the last shot grows by
/// `delta_ms`; the weapon fires when its parent's target is valid and within
/// `attack_range` (`target_offset` is the offset to it), the turret's aim is
/// within tolerance, and at least `fire_rate` milliseconds have passed. Firing
/// resets the time since the last shot. Returns whether it fired.
pub fn weapon_control_system(
    weapon: &mut MechWeapon,
    rotation: &TurretRotation,
    target_offset: Option<(i64, i64)>,
    attack_range: u32,
    delta_ms: u32,
) -> (fired: bool)
    ensures
        fired == fires(
            old(weapon).last_fire_time as int,
            delta_ms as int,
            fire_solution(*rotation, target_offset, attack_range as int),
            old(weapon).weapon_stats.fire_rate as int,
        ),
        final(weapon).last_fire_time == last_after(
            old(weapon).last_fire_time as int,
            delta_ms as int,
            fire_solution(*rotation, target_offset, attack_range as int),
            old(weapon).weapon_stats.fire_rate as int,
        ),
        final(weapon).weapon_stats == old(weapon).weapon_stats,
        final(weapon).hardpoint_id@ == old(weapon).hardpoint_id@,
{
    let dt = delta_ms as u64;
    weapon.last_fire_time = if weapon.last_fire_time > u64::MAX - dt {
        u64::MAX
    } else {
        weapon.last_fire_time + dt
    };
    let solution = match target_offset {
        Some(o) => {
            if offset_within(o.0, o.1, attack_range) {
                let err = shortest_angle_difference(rotation.current_angle, rotation.target_angle);
                -ANGLE_TOLERANCE <= err && err <= ANGLE_TOLERANCE
            } else {
                false
            }
        },
        None => false,
    };
    if solution && weapon.last_fire_time >= weapon.weapon_stats.fire_rate as u64 {
        weapon.last_fire_time = 0;
        true
    } else {
        false
    }
}

/// The total of the tick lengths in `ticks`.
pub open spec fn total_time(ticks: Seq<(u32, bool)>) -> int
    decreases ticks.len(),
{
    if ticks.len() == 0 {
        0
    } else {
        ticks[0].0 + total_time(ticks.subrange(1, ticks.len() as int))
    }
}

/// Whether a weapon whose last shot was `last` milliseconds ago fires during
/// `ticks`, each a tick length and whether there was a fire solution then.
pub open spec fn fires_during(last: int, ticks: Seq<(u32, bool)>, fire_rate: int) -> bool
    decreases ticks.len(),
{
    if ticks.len() == 0 {
        false
    } else {
        fires(last, ticks[0].0 as int, ticks[0].1, fire_rate) || fires_during(
            last_after(last, ticks[0].0 as int, ticks[0].1, fire_rate),
            ticks.subrange(1, ticks.len() as int),
            fire_rate,
        )
    }
}

/// A weapon fires at most once per `fire_rate`: from a shot (or any time
/// `last` since one), it does not fire again before `fire_rate` milliseconds
/// have passed, whatever the fire solutions in between.
pub proof fn law_fire_cooldown(last: int, ticks: Seq<(u32, bool)>, fire_rate: int)
    requires
        0 <= last,
        last + total_time(ticks) < fire_rate,
        fire_rate <= u32::MAX,
    ensures
        !fires_during(last, ticks, fire_rate),
    decreases ticks.len(),
{
    if ticks.len() > 0 {
        let rest = ticks.subrange(1, ticks.len() as int);
        lemma_total_time_nonnegative(rest);
        law_fire_cooldown(last + ticks[0].0, rest, fire_rate);
    }
}

proof fn lemma_total_time_nonnegative(ticks: Seq<(u32, bool)>)
    ensures
        total_time(ticks) >= 0,
    decreases ticks.len(),
{
    if ticks.len() > 0 {
        lemma_total_time_nonnegative(ticks.subrange(1, ticks.len() as int));
    }
}

} // verus!
