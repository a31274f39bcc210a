use vstd::prelude::*;
use crate::angle::{abs, norm, normalize_angle};
use crate::movement::TargetFix;
use crate::weapons::ATTACK_RANGE;
use crate::projectile::Health;

verus! {

/// A click selects an enemy closer to it than this (thousandths of a unit).
pub const SELECTION_RADIUS: u32 = 2_000;

/// A shell strikes an enemy whose centre is closer than this: the shell's
/// radius plus half the enemy's size.
pub const SHELL_HIT_RADIUS: u32 = 950;

/// A hero without a drive is at its move target within this distance.
pub const DIRECT_ARRIVAL: u32 = 50;

/// A hero without a drive faces its move target only from farther than this.
pub const FACING_MINIMUM: u32 = 10;

/// The squared distance between two points of the ground plane.
pub open spec fn dist2(a: (i64, i64), b: (i64, i64)) -> int {
    (a.0 - b.0) * (a.0 - b.0) + (a.1 - b.1) * (a.1 - b.1)
}

/// The index of the enemy nearest to `p` among those closer than `radius`,
/// the first of equally near ones.
pub open spec fn nearest_within(p: (i64, i64), enemies: Seq<(i64, i64)>, radius: int, r: Option<usize>) -> bool {
    match r {
        Some(i) => {
            &&& i < enemies.len()
            &&& dist2(p, enemies[i as int]) < radius * radius
            &&& forall|j: int| 0 <= j < enemies.len() ==> dist2(p, enemies[i as int]) <= dist2(p, #[trigger] enemies[j])
            &&& forall|j: int| 0 <= j < i ==> dist2(p, enemies[i as int]) < dist2(p, #[trigger] enemies[j])
        },
        None => forall|j: int| 0 <= j < enemies.len() ==> dist2(p, #[trigger] enemies[j]) >= radius * radius,
    }
}

/// The index of the first enemy closer to `p` than `radius`.
pub open spec fn first_within(p: (i64, i64), enemies: Seq<(i64, i64)>, radius: int, r: Option<usize>) -> bool {
    match r {
        Some(i) => {
            &&& i < enemies.len()
            &&& dist2(p, enemies[i as int]) < radius * radius
            &&& forall|j: int| 0 <= j < i ==> dist2(p, #[trigger] enemies[j]) >= radius * radius
        },
        None => forall|j: int| 0 <= j < enemies.len() ==> dist2(p, #[trigger] enemies[j]) >= radius * radius,
    }
}

fn gap(a: i64, b: i64) -> (r: u128)
    ensures
        r == abs(a - b),
        r < 0x1_0000_0000_0000_0000,
{
    let d = a as i128 - b as i128;
    if d < 0 {
        (-d) as u128
    } else {
        d as u128
    }
}

/// The squared distance from `a` to `b` when it is below `limit2`.
fn dist2_below(a: (i64, i64), b: (i64, i64), limit2: u128) -> (r: Option<u128>)
    requires
        limit2 <= 0x1_0000_0000_0000_0000,
    ensures
        match r {
            Some(d) => d == dist2(a, b) && dist2(a, b) < limit2,
            None => dist2(a, b) >= limit2,
        },
{
    let x = gap(a.0, b.0);
    let z = gap(a.1, b.1);
    assert(x * x == (a.0 - b.0) * (a.0 - b.0)) by (nonlinear_arith)
        requires
            x == abs(a.0 - b.0),
    ;
    assert(z * z == (a.1 - b.1) * (a.1 - b.1)) by (nonlinear_arith)
        requires
            z == abs(a.1 - b.1),
    ;
    assert(x * x < 0x1_0000_0000_0000_0000 * 0x1_0000_0000_0000_0000) by (nonlinear_arith)
        requires
            x < 0x1_0000_0000_0000_0000,
    ;
    assert(z * z < 0x1_0000_0000_0000_0000 * 0x1_0000_0000_0000_0000) by (nonlinear_arith)
        requires
            z < 0x1_0000_0000_0000_0000,
    ;
    let xx = x * x;
    let zz = z * z;
    if xx >= limit2 || zz >= limit2 {
        None
    } else {
        let d = xx + zz;
        if d < limit2 {
            Some(d)
        } else {
            None
        }
    }
}

/// The square of `r`, widened.
fn square(r: u32) -> (s: u128)
    ensures
        s == r * r,
        s <= 0xffff_fffe_0000_0001,
{
    let g = r as u128;
    assert(g * g <= 0xffff_ffff * 0xffff_ffff) by (nonlinear_arith)
        requires
            g <= 0xffff_ffff,
    ;
    g * g
}

/// The enemy a click at `click` selects: the nearest one closer than the
/// selection radius, if any.
pub fn enemy_selection_system(click: (i64, i64), enemies: &Vec<(i64, i64)>) -> (r: Option<usize>)
    ensures
        nearest_within(click, enemies@, SELECTION_RADIUS as int, r),
{
    let mut best: Option<usize> = None;
    let mut best_d: u128 = 0;
    let mut i: usize = 0;
    while i < enemies.len()
        invariant
            0 <= i <= enemies@.len(),
            match best {
                Some(b) => {
                    &&& b < i
                    &&& best_d == dist2(click, enemies@[b as int])
                    &&& dist2(click, enemies@[b as int]) < SELECTION_RADIUS * SELECTION_RADIUS
                    &&& forall|j: int| 0 <= j < i ==> best_d <= dist2(click, #[trigger] enemies@[j])
                    &&& forall|j: int| 0 <= j < b ==> best_d < dist2(click, #[trigger] enemies@[j])
                },
                None => forall|j: int|
                    0 <= j < i ==> dist2(click, #[trigger] enemies@[j]) >= SELECTION_RADIUS * SELECTION_RADIUS,
            },
        decreases enemies@.len() - i,
    {
        match dist2_below(click, enemies[i], square(SELECTION_RADIUS)) {
            Some(d) => {
                let closer = match best {
                    Some(_) => d < best_d,
                    None => true,
                };
                if closer {
                    best = Some(i);
                    best_d = d;
                }
            },
            None => {},
        }
        i = i + 1;
    }
    best
}

/// The first enemy a shell at `shell` strikes, if any.
pub fn shell_hit_index(shell: (i64, i64), enemies: &Vec<(i64, i64)>) -> (r: Option<usize>)
    ensures
        first_within(shell, enemies@, SHELL_HIT_RADIUS as int, r),
{
    let mut i: usize = 0;
    while i < enemies.len()
        invariant
            0 <= i <= enemies@.len(),
            forall|j: int| 0 <= j < i ==> dist2(shell, #[trigger] enemies@[j]) >= SHELL_HIT_RADIUS * SHELL_HIT_RADIUS,
        decreases enemies@.len() - i,
    {
        if dist2_below(shell, enemies[i], square(SHELL_HIT_RADIUS)).is_some() {
            return Some(i);
        }
        i = i + 1;
    }
    None
}

/// What a hero with an attack target does about its distance to it.
#[derive(Clone, Copy, Debug, PartialEq, Eq, Structural)]
pub enum AttackMove {
    /// The target no longer exists: drop it.
    DropTarget,
    /// The target is out of range: move to just inside range of it.
    Approach,
    /// The target is in range: stay.
    Hold,
}

/// Decides the attack move. `target_offset` is the offset from the hero to its
/// target, absent when the target no longer exists.
pub fn attack_move_system(target_offset: Option<(i64, i64)>) -> (r: AttackMove)
    ensures
        r == match target_offset {
            None => AttackMove::DropTarget,
            Some(o) => if dist2((0, 0), o) > ATTACK_RANGE * ATTACK_RANGE {
                AttackMove::Approach
            } else {
                AttackMove::Hold
            },
        },
{
    match target_offset {
        None => AttackMove::DropTarget,
        Some(o) => if dist2_below((0, 0), o, square(ATTACK_RANGE) + 1).is_some() {
            AttackMove::Hold
        } else {
            AttackMove::Approach
        },
    }
}

/// One tick of a hero that has no drive: it heads straight for its move
/// target at its tread speed.
#[derive(Clone, Copy, Debug, PartialEq, Eq, Structural)]
pub struct DirectStep {
    pub advance: u64,
    pub face: Option<i64>,
    pub arrived: bool,
}

/// Moves a hero without a drive toward its move target: while farther than the
/// arrival distance it advances `move_speed` times the tick toward the target,
/// facing it when not too close to tell; once there it drops the target.
pub fn movement_system(fix: TargetFix, move_speed: u32, delta_ms: u32) -> (r: DirectStep)
    ensures
        r == (if dist2((0, 0), (fix.dx, fix.dz)) > DIRECT_ARRIVAL * DIRECT_ARRIVAL {
            DirectStep {
                advance: ((move_speed * delta_ms) / 1000) as u64,
                face: if dist2((0, 0), (fix.dx, fix.dz)) > FACING_MINIMUM * FACING_MINIMUM {
                    Some(norm(fix.bearing as int) as i64)
                } else {
                    None
                },
                arrived: false,
            }
        } else {
            DirectStep { advance: 0, face: None, arrived: true }
        }),
{
    let o = (fix.dx, fix.dz);
    if dist2_below((0, 0), o, square(DIRECT_ARRIVAL) + 1).is_some() {
        DirectStep { advance: 0, face: None, arrived: true }
    } else {
        let facing = dist2_below((0, 0), o, square(FACING_MINIMUM) + 1).is_none();
        assert(move_speed * delta_ms <= 0xffff_ffff * 0xffff_ffff) by (nonlinear_arith)
            requires
                move_speed <= 0xffff_ffff,
                delta_ms <= 0xffff_ffff,
        ;
        let advance = (move_speed as u64) * (delta_ms as u64) / 1000;
        DirectStep {
            advance,
            face: if facing {
                Some(normalize_angle(fix.bearing))
            } else {
                None
            },
            arrived: false,
        }
    }
}

/// Every health can still take a hit without leaving the counter's range.
pub open spec fn can_take_hits(healths: Seq<Health>) -> bool {
    forall|i: int| 0 <= i < healths.len() ==> (#[trigger] healths[i]).current >= i64::MIN + u32::MAX
}

/// Resolves a shell at `shell` against the enemies at `enemies`, whose health
/// is `healths` index for index: the first enemy in reach loses `damage`, and
/// is reported with whether that destroyed it. The shell is spent on a hit.
pub fn tank_shell_movement_system(shell: (i64, i64), damage: u32, enemies: &Vec<(i64, i64)>, healths: &mut Vec<Health>) -> (r:
    Option<(usize, bool)>)
    requires
        enemies@.len() == old(healths)@.len(),
        can_take_hits(old(healths)@),
    ensures
        first_within(
            shell,
            enemies@,
            SHELL_HIT_RADIUS as int,
            match r {
                Some(h) => Some(h.0),
                None => None,
            },
        ),
        match r {
            Some((i, destroyed)) => {
                &&& final(healths)@.len() == old(healths)@.len()
                &&& forall|j: int| 0 <= j < old(healths)@.len() && j != i ==> #[trigger] final(healths)@[j] == old(healths)@[j]
                &&& final(healths)@[i as int].current == old(healths)@[i as int].current - damage
                &&& final(healths)@[i as int].max == old(healths)@[i as int].max
                &&& destroyed == (final(healths)@[i as int].current <= 0)
            },
            None => final(healths)@ == old(healths)@,
        },
{
    match shell_hit_index(shell, enemies) {
        Some(i) => {
            let mut h = healths[i];
            h.current = h.current - damage as i64;
            healths.set(i, h);
            Some((i, h.current <= 0))
        },
        None => None,
    }
}

} // verus!
