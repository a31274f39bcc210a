use vstd::prelude::*;
use crate::angle::{abs, norm, shortest, normalize_angle, shortest_angle_difference};
use crate::plane::{Point2, magnitude};

verus! {

/// An impact whose direction is within this many millidegrees of the surface
/// normal, or of its opposite, counts as perpendicular: the largest whole
/// millidegree angle whose cosine exceeds 0.95.
pub const PERPENDICULAR_CONE: i64 = 18_194;

/// Half the spread of a perpendicular impact's fragments (120 degrees).
pub const CONE_SPREAD: i64 = 120_000;

/// Half the spread of an angled impact's fragments (30 degrees).
pub const RICOCHET_SPREAD: i64 = 30_000;

/// A tank shell slower than this (thousandths of a unit per second) may rest
/// against what it hit for another tick.
pub const SLOW_SHELL_SPEED: u32 = 2_000;

/// Hit points, in thousandths.
#[derive(Clone, Copy, Debug, PartialEq, Eq, Structural)]
pub struct Health {
    pub current: i64,
    pub max: i64,
}

impl Health {
    /// Full health.
    pub fn new(max: i64) -> (r: Health)
        ensures
            r.current == max,
            r.max == max,
    {
        Health { current: max, max }
    }
}

/// A fragment's flight: its bearing and its speed in thousandths of a unit per
/// second.
#[derive(Clone, Copy, Debug, PartialEq, Eq, Structural)]
pub struct FragmentVelocity {
    pub bearing: i64,
    pub speed: u32,
}

/// What a projectile hit brings about.
#[derive(Clone, Copy, Debug, PartialEq, Eq, Structural)]
pub struct HitOutcome {
    pub spawn_fragments: bool,
    pub despawn_projectile: bool,
    pub knockback: bool,
    pub hit_flash: bool,
    pub target_destroyed: bool,
}

/// The impact is perpendicular: `|cos|` of the angle between the impact
/// direction and the surface normal exceeds 0.95.
pub open spec fn perpendicular(impact_bearing: int, normal_bearing: int) -> bool {
    let d = abs(shortest(impact_bearing, normal_bearing));
    d <= PERPENDICULAR_CONE || d >= 180_000 - PERPENDICULAR_CONE
}

/// The bearing along which the fragments leave: straight back for a
/// perpendicular impact, else the mirror image of the impact direction in the
/// surface.
pub open spec fn reflection_bearing(impact_bearing: int, normal_bearing: int) -> int {
    if perpendicular(impact_bearing, normal_bearing) {
        norm(impact_bearing + 180_000)
    } else {
        norm(2 * normal_bearing + 180_000 - impact_bearing)
    }
}

/// The three fragment bearings: the reflection, then the reflection turned
/// counterclockwise and clockwise (on the ground plane seen from above, +X
/// right and +Z up) by the spread.
pub open spec fn fragment_bearings(impact_bearing: int, normal_bearing: int) -> Seq<i64> {
    let r = reflection_bearing(impact_bearing, normal_bearing);
    let spread = if perpendicular(impact_bearing, normal_bearing) {
        CONE_SPREAD
    } else {
        RICOCHET_SPREAD
    };
    seq![r as i64, norm(r - spread) as i64, norm(r + spread) as i64]
}

/// Seventy percent of the parent shell's speed.
pub open spec fn fragment_speed(parent_speed: int) -> int {
    parent_speed * 7 / 10
}

/// Fifteen percent of the parent shell's range.
pub open spec fn fragment_share(parent_range: int) -> int {
    parent_range * 15 / 100
}

/// The bearings of the three fragments of a shell that struck a surface.
/// Bearings are of the impact velocity and of the surface normal.
pub fn calculate_fragment_directions(impact_bearing: i64, normal_bearing: i64) -> (r: Vec<i64>)
    ensures
        r@ == fragment_bearings(impact_bearing as int, normal_bearing as int),
{
    let d = shortest_angle_difference(impact_bearing, normal_bearing);
    let ad = if d < 0 {
        -d
    } else {
        d
    };
    let perpendicular = ad <= PERPENDICULAR_CONE || ad >= 180_000 - PERPENDICULAR_CONE;
    let i = normalize_angle(impact_bearing);
    let reflection = if perpendicular {
        normalize_angle(i + 180_000)
    } else {
        let n = normalize_angle(normal_bearing);
        proof {
            vstd::arithmetic::div_mod::lemma_fundamental_div_mod(impact_bearing as int, 360_000);
            vstd::arithmetic::div_mod::lemma_fundamental_div_mod(normal_bearing as int, 360_000);
            let k = 2 * ((normal_bearing as int) / 360_000) - (impact_bearing as int) / 360_000;
            crate::angle::lemma_norm_periodic(2 * n + 180_000 - i, k);
        }
        normalize_angle(2 * n + 180_000 - i)
    };
    proof {
        if perpendicular {
            vstd::arithmetic::div_mod::lemma_fundamental_div_mod(impact_bearing as int, 360_000);
            crate::angle::lemma_norm_periodic(
                i + 180_000,
                (impact_bearing as int) / 360_000,
            );
        }
    }
    let spread = if perpendicular {
        CONE_SPREAD
    } else {
        RICOCHET_SPREAD
    };
    let mut v: Vec<i64> = Vec::new();
    v.push(reflection);
    v.push(normalize_angle(reflection - spread));
    v.push(normalize_angle(reflection + spread));
    v
}

/// The velocities of the three fragments: the directions above, each at
/// seventy percent of the parent shell's speed.
pub fn calculate_fragment_velocities(parent_speed: u32, impact_bearing: i64, normal_bearing: i64) -> (r: Vec<
    FragmentVelocity,
>)
    ensures
        r@.len() == 3,
        forall|i: int|
            0 <= i < 3 ==> (#[trigger] r@[i]).bearing == fragment_bearings(impact_bearing as int, normal_bearing as int)[i]
                && r@[i].speed == fragment_speed(parent_speed as int),
{
    let directions = calculate_fragment_directions(impact_bearing, normal_bearing);
    let speed = ((parent_speed as u64) * 7 / 10) as u32;
    let mut r: Vec<FragmentVelocity> = Vec::new();
    let mut i: usize = 0;
    while i < 3
        invariant
            0 <= i <= 3,
            directions@ == fragment_bearings(impact_bearing as int, normal_bearing as int),
            speed == fragment_speed(parent_speed as int),
            r@.len() == i,
            forall|j: int|
                0 <= j < i ==> (#[trigger] r@[j]).bearing == directions@[j] && r@[j].speed == speed,
        decreases 3 - i,
    {
        r.push(FragmentVelocity { bearing: directions[i], speed });
        i = i + 1;
    }
    r
}

/// How long a fragment flies, in milliseconds: fifteen percent of the parent
/// shell's range, taken in thousandths of a unit.
pub fn calculate_fragment_lifetime(parent_range: u32) -> (r: u32)
    ensures
        r == fragment_share(parent_range as int),
{
    ((parent_range as u64) * 15 / 100) as u32
}

/// How far a fragment flies: fifteen percent of the parent shell's range.
pub fn calculate_fragment_max_distance(parent_range: u32) -> (r: u32)
    ensures
        r == fragment_share(parent_range as int),
{
    ((parent_range as u64) * 15 / 100) as u32
}

/// Each of the three fragments carries a third of the parent shell's damage.
pub fn calculate_fragment_damage(parent_damage: u32) -> (r: u32)
    ensures
        r == parent_damage / 3,
{
    parent_damage / 3
}

/// The offset `(dx, dz)` reaches at least `limit` from its origin.
pub open spec fn reaches(dx: int, dz: int, limit: int) -> bool {
    dx * dx + dz * dz >= limit * limit
}

fn offset_reaches(dx: i64, dz: i64, limit: u32) -> (r: bool)
    ensures
        r == reaches(dx as int, dz as int, limit as int),
{
    let x = magnitude(dx);
    let z = magnitude(dz);
    let g = limit as u128;
    assert(x * x <= 0x4000_0000_0000_0000_0000_0000_0000_0000) by (nonlinear_arith)
        requires
            x <= 0x8000_0000_0000_0000,
    ;
    assert(z * z <= 0x4000_0000_0000_0000_0000_0000_0000_0000) by (nonlinear_arith)
        requires
            z <= 0x8000_0000_0000_0000,
    ;
    assert(g * g <= 0xffff_ffff * 0xffff_ffff) by (nonlinear_arith)
        requires
            g <= 0xffff_ffff,
    ;
    assert(x * x == dx * dx) by (nonlinear_arith)
        requires
            x == abs(dx as int),
    ;
    assert(z * z == dz * dz) by (nonlinear_arith)
        requires
            z == abs(dz as int),
    ;
    x * x + z * z >= g * g
}

/// A shell is spent once it is `max_range` or more from where it was fired;
/// `(dx, dz)` is its offset from there.
pub fn tank_shell_lifetime_system(dx: i64, dz: i64, max_range: u32) -> (expired: bool)
    ensures
        expired == reaches(dx as int, dz as int, max_range as int),
{
    offset_reaches(dx, dz, max_range)
}

/// A fragment is spent when its lifetime has run out or it has flown its
/// distance, whichever comes first.
pub fn fragment_lifetime_system(elapsed_ms: u32, lifetime_ms: u32, dx: i64, dz: i64, max_distance: u32) -> (expired:
    bool)
    ensures
        expired == (elapsed_ms >= lifetime_ms || reaches(dx as int, dz as int, max_distance as int)),
{
    elapsed_ms >= lifetime_ms || offset_reaches(dx, dz, max_distance)
}

/// The effects of a projectile striking a damageable target. A fragmenting
/// tank shell bursts into fragments. Every projectile is removed, except a tank
/// shell (that does not burst) moving slower than `SLOW_SHELL_SPEED`. Tank
/// shells knock the target back and make it flash. The damage is taken from the
/// target's health, and the target is destroyed when that drops to zero or
/// below.
pub fn collision_detection_system(
    health: &mut Health,
    damage: u32,
    is_tank_shell: bool,
    is_fragment_shell: bool,
    speed: u32,
) -> (r: HitOutcome)
    requires
        old(health).current >= i64::MIN + u32::MAX,
    ensures
        final(health).current == old(health).current - damage,
        final(health).max == old(health).max,
        r.spawn_fragments == (is_tank_shell && is_fragment_shell),
        r.despawn_projectile == (r.spawn_fragments || !is_tank_shell || speed >= SLOW_SHELL_SPEED),
        r.knockback == is_tank_shell,
        r.hit_flash == is_tank_shell,
        r.target_destroyed == (final(health).current <= 0),
{
    health.current = health.current - damage as i64;
    let burst = is_tank_shell && is_fragment_shell;
    HitOutcome {
        spawn_fragments: burst,
        despawn_projectile: burst || !is_tank_shell || speed >= SLOW_SHELL_SPEED,
        knockback: is_tank_shell,
        hit_flash: is_tank_shell,
        target_destroyed: health.current <= 0,
    }
}

/// A projectile's damage (thousandths of a hit point) and speed (thousandths of
/// a unit per second).
#[derive(Clone, Copy, Debug, PartialEq, Eq, Structural)]
pub struct Projectile {
    pub damage: u32,
    pub speed: u32,
}

/// A shell flying straight: its velocity, where it was fired, and how far it
/// flies.
#[derive(Clone, Copy, Debug, PartialEq, Eq, Structural)]
pub struct TankShell {
    pub velocity: Point2,
    pub spawn_position: Point2,
    pub max_range: u32,
}

/// A fragment of a burst shell.
#[derive(Clone, Copy, Debug, PartialEq, Eq, Structural)]
pub struct ShellFragment {
    pub parent_speed: u32,
    pub velocity: FragmentVelocity,
    pub lifetime_ms: u32,
    pub max_distance: u32,
    pub spawn_position: Point2,
    pub fragment_index: u8,
    pub damage: u32,
}

/// A rocket that speeds up by a fixed proportion (thousandths per second) of
/// its speed until it reaches its top speed.
#[derive(Clone, Copy, Debug, PartialEq, Eq, Structural)]
pub struct Rocket {
    pub initial_speed: u32,
    pub max_speed: u32,
    pub acceleration_rate: u32,
    pub current_speed: u32,
    pub direction: i64,
}

/// The speed of a rocket after a tick of `dt` milliseconds.
pub open spec fn rocket_speed_after(r: Rocket, dt: int) -> int {
    if r.current_speed < r.max_speed {
        let raised = r.current_speed + (r.current_speed * r.acceleration_rate * dt) / 1_000_000;
        if raised < r.max_speed {
            raised
        } else {
            r.max_speed as int
        }
    } else {
        r.current_speed as int
    }
}

/// Speeds a rocket up for one tick.
pub fn rocket_acceleration_system(rocket: &mut Rocket, delta_ms: u32)
    ensures
        final(rocket).current_speed == rocket_speed_after(*old(rocket), delta_ms as int),
        final(rocket).max_speed == old(rocket).max_speed,
        final(rocket).initial_speed == old(rocket).initial_speed,
        final(rocket).acceleration_rate == old(rocket).acceleration_rate,
        final(rocket).direction == old(rocket).direction,
{
    if rocket.current_speed < rocket.max_speed {
        let c = rocket.current_speed as u128;
        let a = rocket.acceleration_rate as u128;
        let t = delta_ms as u128;
        assert(c * a <= 0xffff_ffff * 0xffff_ffff) by (nonlinear_arith)
            requires
                c <= 0xffff_ffff,
                a <= 0xffff_ffff,
        ;
        assert(c * a * t <= 0xffff_ffff * 0xffff_ffff * 0xffff_ffff) by (nonlinear_arith)
            requires
                c * a <= 0xffff_ffff * 0xffff_ffff,
                t <= 0xffff_ffff,
        ;
        let raised = c + c * a * t / 1_000_000;
        rocket.current_speed = if raised < rocket.max_speed as u128 {
            raised as u32
        } else {
            rocket.max_speed
        };
    }
}

/// A projectile that fell below this height (thousandths of a unit) has left
/// the world.
pub const WORLD_FLOOR: i64 = -1_000_000;

/// Whether a projectile at height `y` has left the world.
pub fn projectile_lifetime_system(y: i64) -> (gone: bool)
    ensures
        gone == (y < WORLD_FLOOR),
{
    y < WORLD_FLOOR
}

/// The three fragments a fragmenting shell bursts into: along the fragment
/// directions, at seventy percent of its speed, each with a third of its damage
/// and with lifetime and reach fifteen percent of its range, numbered in order.
pub fn spawn_fragments(
    impact_position: Point2,
    parent_speed: u32,
    impact_bearing: i64,
    normal_bearing: i64,
    parent_range: u32,
    parent_damage: u32,
) -> (r: Vec<ShellFragment>)
    ensures
        r@.len() == 3,
        forall|i: int|
            0 <= i < 3 ==> (#[trigger] r@[i]) == (ShellFragment {
                parent_speed,
                velocity: FragmentVelocity {
                    bearing: fragment_bearings(impact_bearing as int, normal_bearing as int)[i],
                    speed: fragment_speed(parent_speed as int) as u32,
                },
                lifetime_ms: fragment_share(parent_range as int) as u32,
                max_distance: fragment_share(parent_range as int) as u32,
                spawn_position: impact_position,
                fragment_index: i as u8,
                damage: (parent_damage / 3) as u32,
            }),
{
    let velocities = calculate_fragment_velocities(parent_speed, impact_bearing, normal_bearing);
    let lifetime_ms = calculate_fragment_lifetime(parent_range);
    let max_distance = calculate_fragment_max_distance(parent_range);
    let damage = calculate_fragment_damage(parent_damage);
    let mut r: Vec<ShellFragment> = Vec::new();
    let mut i: usize = 0;
    while i < 3
        invariant
            0 <= i <= 3,
            velocities@.len() == 3,
            forall|j: int|
                0 <= j < 3 ==> (#[trigger] velocities@[j]).bearing == fragment_bearings(
                    impact_bearing as int,
                    normal_bearing as int,
                )[j] && velocities@[j].speed == fragment_speed(parent_speed as int),
            lifetime_ms == fragment_share(parent_range as int),
            max_distance == fragment_share(parent_range as int),
            damage == parent_damage / 3,
            r@.len() == i,
            forall|j: int|
                0 <= j < i ==> (#[trigger] r@[j]) == (ShellFragment {
                    parent_speed,
                    velocity: velocities@[j],
                    lifetime_ms,
                    max_distance,
                    spawn_position: impact_position,
                    fragment_index: j as u8,
                    damage,
                }),
        decreases 3 - i,
    {
        r.push(
            ShellFragment {
                parent_speed,
                velocity: velocities[i],
                lifetime_ms,
                max_distance,
                spawn_position: impact_position,
                fragment_index: i as u8,
                damage,
            },
        );
        i = i + 1;
    }
    r
}

} // verus!
