//! What happens in a frame: the player moves and aims, fires on a timer,
//! enemies chase the player, spawners send out enemies and speed up over
//! time, and powerups appear now and then.
use crate::attacks::{Attack, AttackKind, CurrentAttack, Powerup, Split};
use crate::geometry::{along, div_toward_zero, div_trunc, offset, toward, translate, Point};
use crate::projectile::{Fireball, HALF_HEIGHT, HALF_WIDTH};
use crate::timer::Timer;
use crate::ui::next_frame;
use vstd::prelude::*;

verus! {

/// Half the player sprite's size, in thousandths of a unit.
pub const HALF_SPRITE: i32 = 16_000;

/// How far from the center the player may go on the horizontal axis.
pub const PLAYER_LIMIT_X: i32 = HALF_WIDTH - HALF_SPRITE;

/// How far from the center the player may go on the vertical axis.
pub const PLAYER_LIMIT_Y: i32 = HALF_HEIGHT - HALF_SPRITE;

/// How far the reticle stands from the player on an axis being aimed along.
pub const AIM_REACH: i32 = 100_000;

/// Speed of a newly spawned enemy, in units per second.
pub const ENEMY_SPEED: u32 = 175;

/// How much each rise in difficulty takes off a spawner's interval.
pub const DIFFICULTY_STEP_MS: u64 = 500;

/// The shortest interval that a rise in difficulty brings a spawner to.
pub const MIN_SPAWN_INTERVAL_MS: u64 = 500;

/// Accumulated time after which a powerup appears.
pub const POWERUP_PERIOD_MS: u64 = 30_000;

/// The player: its speed in units per second, and a bias added to its
/// direction on each axis, in thousandths of a full step.
#[derive(Clone, Copy, Debug, PartialEq, Eq, Structural)]
pub struct Player {
    pub speed: u32,
    pub mod_x: i32,
    pub mod_y: i32,
}

/// An enemy and its speed, in units per second.
#[derive(Clone, Copy, Debug, PartialEq, Eq, Structural)]
pub struct Enemy {
    pub speed: u32,
}

/// The keys held this frame: movement (`a`, `d`, `w`, `s`), sprint (`shift`)
/// and aim (`up`, `down`, `left`, `right`).
#[derive(Clone, Copy, Debug, PartialEq, Eq, Structural)]
pub struct Keys {
    pub a: bool,
    pub d: bool,
    pub w: bool,
    pub s: bool,
    pub shift: bool,
    pub up: bool,
    pub down: bool,
    pub left: bool,
    pub right: bool,
}

/// The timer that paces fireballs while the player aims.
#[derive(Clone, Copy, Debug, PartialEq, Eq, Structural)]
pub struct FireballTimer(pub Timer);

/// A spawner's timer for sending out enemies.
#[derive(Clone, Copy, Debug, PartialEq, Eq, Structural)]
pub struct EnemyTimer(pub Timer);

/// The timer on which difficulty rises.
#[derive(Clone, Copy, Debug, PartialEq, Eq, Structural)]
pub struct DifficultyTimer(pub Timer);

/// Time accumulated toward the next powerup.
#[derive(Clone, Copy, Debug, PartialEq, Eq, Structural)]
pub struct Elapsed(pub u64);

/// -1, 0 or 1: the direction that a pair of opposite keys gives.
pub open spec fn axis(neg: bool, pos: bool) -> int {
    (if pos {
        1int
    } else {
        0int
    }) - (if neg {
        1int
    } else {
        0int
    })
}

/// `v` kept within `[-limit, limit]`.
pub open spec fn clamp(v: int, limit: int) -> int {
    if v > limit {
        limit
    } else if v < -limit {
        -limit
    } else {
        v
    }
}

/// The distance covered in `dt_ms` milliseconds at `speed` units per second,
/// with a direction of `dir` thousandths of a step, half as fast again when
/// sprinting; in thousandths of a unit, rounded toward zero.
pub open spec fn stride(speed: int, dt_ms: int, dir: int, sprint: bool) -> int {
    div_trunc(
        speed * dt_ms * dir * (if sprint {
            3int
        } else {
            2int
        }),
        2000,
    )
}

/// Where the player at `pos` is after a frame of `dt_ms` with `keys` held:
/// moved on each axis by its stride, then kept within the limits. Diagonal
/// moves are not scaled down.
pub open spec fn moved_player(p: Player, pos: Point, keys: Keys, dt_ms: u32) -> Point {
    Point {
        x: clamp(
            pos.x + stride(p.speed as int, dt_ms as int, 1000 * axis(keys.a, keys.d) + p.mod_x, keys.shift),
            PLAYER_LIMIT_X as int,
        ) as i32,
        y: clamp(
            pos.y + stride(p.speed as int, dt_ms as int, 1000 * axis(keys.s, keys.w) + p.mod_y, keys.shift),
            PLAYER_LIMIT_Y as int,
        ) as i32,
    }
}

/// The reticle's offset from the player: `AIM_REACH` along each axis being
/// aimed along (up before down, left before right), zero on the others.
pub open spec fn aim_offset(keys: Keys) -> (int, int) {
    (
        if keys.left {
            -AIM_REACH as int
        } else if keys.right {
            AIM_REACH as int
        } else {
            0
        },
        if keys.up {
            AIM_REACH as int
        } else if keys.down {
            -AIM_REACH as int
        } else {
            0
        },
    )
}

/// Whether any aim key is held.
pub open spec fn aiming(keys: Keys) -> bool {
    keys.up || keys.down || keys.left || keys.right
}

impl Player {
    /// A player of the given speed, with no bias.
    pub fn new(speed: u32) -> (r: Player)
        ensures
            r == (Player { speed, mod_x: 0, mod_y: 0 }),
    {
        Player { speed, mod_x: 0, mod_y: 0 }
    }
}

fn step_axis(pos: i32, speed: u32, dt_ms: u32, dir: i64, sprint: bool, limit: i32) -> (r: i32)
    requires
        -0x1_0000_0000 <= dir <= 0x1_0000_0000,
        0 < limit,
    ensures
        r == clamp(pos + stride(speed as int, dt_ms as int, dir as int, sprint), limit as int),
{
    let factor: i128 = if sprint {
        3
    } else {
        2
    };
    let ghost lim: int = 0x3_0000_0000_0000_0000_0000_0000int;
    assert(-lim <= (speed as int) * (dt_ms as int) * (dir as int) * (factor as int) <= lim)
        by (nonlinear_arith)
        requires
            lim == 0x3_0000_0000_0000_0000_0000_0000int,
            0 <= speed <= 0xffff_ffff,
            0 <= dt_ms <= 0xffff_ffff,
            -0x1_0000_0000 <= dir <= 0x1_0000_0000,
            2 <= factor <= 3,
    ;
    assert(0 <= (speed as int) * (dt_ms as int) <= 0x1_0000_0000_0000_0000) by (nonlinear_arith)
        requires
            0 <= speed <= 0xffff_ffff,
            0 <= dt_ms <= 0xffff_ffff,
    ;
    assert(-0x1_0000_0000_0000_0000 * 0x1_0000_0000 <= (speed as int) * (dt_ms as int) * (dir as int)
        <= 0x1_0000_0000_0000_0000 * 0x1_0000_0000) by (nonlinear_arith)
        requires
            0 <= (speed as int) * (dt_ms as int) <= 0x1_0000_0000_0000_0000,
            -0x1_0000_0000 <= dir <= 0x1_0000_0000,
    ;
    let num = (speed as i128) * (dt_ms as i128) * (dir as i128) * factor;
    let d = div_toward_zero(num, 2000);
    proof {
        assert(-lim <= div_trunc(num as int, 2000) <= lim) by {
            if num >= 0 {
                assert(num as int / 2000 <= num as int) by (nonlinear_arith)
                    requires
                        num >= 0,
                ;
            } else {
                assert((-num) as int / 2000 <= -num) by (nonlinear_arith)
                    requires
                        num < 0,
                ;
            }
        }
    }
    let v = pos as i128 + d;
    if v > limit as i128 {
        limit
    } else if v < -(limit as i128) {
        -limit
    } else {
        v as i32
    }
}

/// Moves the player at `pos` for a frame of `dt_ms` with `keys` held, and
/// places the reticle. Returns the player's new position and the reticle's.
pub fn move_sys(player: &Player, pos: Point, keys: &Keys, dt_ms: u32) -> (r: (Point, Point))
    ensures
        r.0 == moved_player(*player, pos, *keys, dt_ms),
        -PLAYER_LIMIT_X <= r.0.x <= PLAYER_LIMIT_X,
        -PLAYER_LIMIT_Y <= r.0.y <= PLAYER_LIMIT_Y,
        r.1.x == r.0.x + aim_offset(*keys).0,
        r.1.y == r.0.y + aim_offset(*keys).1,
{
    let dir_x: i64 = (if keys.d {
        1000i64
    } else {
        0
    }) - (if keys.a {
        1000i64
    } else {
        0
    }) + player.mod_x as i64;
    let dir_y: i64 = (if keys.w {
        1000i64
    } else {
        0
    }) - (if keys.s {
        1000i64
    } else {
        0
    }) + player.mod_y as i64;
    let x = step_axis(pos.x, player.speed, dt_ms, dir_x, keys.shift, PLAYER_LIMIT_X);
    let y = step_axis(pos.y, player.speed, dt_ms, dir_y, keys.shift, PLAYER_LIMIT_Y);
    let aim_x: i32 = if keys.left {
        -AIM_REACH
    } else if keys.right {
        AIM_REACH
    } else {
        0
    };
    let aim_y: i32 = if keys.up {
        AIM_REACH
    } else if keys.down {
        -AIM_REACH
    } else {
        0
    };
    (Point { x, y }, Point { x: x + aim_x, y: y + aim_y })
}

impl Enemy {
    /// Where an enemy at `pos` is after `dt_ms` milliseconds of heading
    /// straight for `player`; an enemy already on the player stays put.
    pub open spec fn chased(self, pos: Point, player: Point, dt_ms: u32) -> Point {
        let d = along(player.x - pos.x, player.y - pos.y, self.speed * dt_ms);
        offset(pos, d.0, d.1)
    }

    /// Moves an enemy at `pos` toward `player` for `dt_ms` milliseconds.
    pub fn chase(&self, pos: Point, player: Point, dt_ms: u32) -> (r: Point)
        ensures
            r == self.chased(pos, player, dt_ms),
    {
        assert((self.speed as int) * (dt_ms as int) <= 0xffff_ffff * 0xffff_ffff) by (nonlinear_arith)
            requires
                self.speed <= 0xffff_ffff,
                dt_ms <= 0xffff_ffff,
        ;
        let d = toward(
            player.x as i64 - pos.x as i64,
            player.y as i64 - pos.y as i64,
            self.speed as u64 * dt_ms as u64,
        );
        translate(pos, d.0, d.1)
    }
}

/// Moves every enemy toward the player for a frame of `dt_ms`.
pub fn move_enemies(player: Point, enemies: &Vec<Enemy>, positions: &mut Vec<Point>, dt_ms: u32)
    requires
        old(positions)@.len() == enemies@.len(),
    ensures
        final(positions)@.len() == old(positions)@.len(),
        forall|i: int|
            0 <= i < enemies@.len() ==> final(positions)@[i] == enemies@[i].chased(
                old(positions)@[i],
                player,
                dt_ms,
            ),
{
    let ghost start = positions@;
    let mut i: usize = 0;
    while i < enemies.len()
        invariant
            i <= enemies@.len(),
            positions@.len() == enemies@.len(),
            start.len() == enemies@.len(),
            forall|k: int|
                0 <= k < i ==> positions@[k] == enemies@[k].chased(start[k], player, dt_ms),
            forall|k: int| i <= k < start.len() ==> positions@[k] == start[k],
        decreases enemies@.len() - i,
    {
        let p = enemies[i].chase(positions[i], player, dt_ms);
        positions.set(i, p);
        i = i + 1;
    }
}

/// Whether the fire control acts on a frame, given its timer after the
/// frame's tick: a paused timer acts at once, a running one when it goes off.
pub open spec fn fire_ready(t: Timer) -> bool {
    t.paused || t.times_finished > 0
}

/// The fire timer after a frame of the fire control.
pub open spec fn fire_timer_after(t: Timer, keys: Keys, dt_ms: u32) -> Timer {
    let t1 = t.ticked(dt_ms as u64);
    if !fire_ready(t1) {
        t1
    } else if aiming(keys) {
        Timer { paused: false, ..t1 }
    } else {
        Timer { paused: true, elapsed_ms: 0, finished: false, times_finished: 0, ..t1 }
    }
}

/// The fire control for a frame of `dt_ms`: while an aim key is held, fires a
/// shot of the current attack from `origin` at `target` each time the timer
/// goes off, the first one at once; when no aim key is held, stops and resets
/// the timer. Returns the fireballs fired.
pub fn spawn_fireball(
    timer: &mut FireballTimer,
    keys: &Keys,
    dt_ms: u32,
    attack: &CurrentAttack,
    origin: Point,
    target: Point,
) -> (r: Vec<Fireball>)
    requires
        old(timer).0.wf(),
    ensures
        final(timer).0 == fire_timer_after(old(timer).0, *keys, dt_ms),
        final(timer).0.wf(),
        r@ == if fire_ready(old(timer).0.ticked(dt_ms as u64)) && aiming(*keys) {
            attack.0.shots(origin, target)
        } else {
            Seq::<Fireball>::empty()
        },
{
    timer.0.tick(dt_ms as u64);
    if !timer.0.just_finished() && !timer.0.paused() {
        return Vec::new();
    }
    if keys.right || keys.left || keys.up || keys.down {
        timer.0.unpause();
        attack.0.attack(origin, target)
    } else {
        timer.0.pause();
        timer.0.reset();
        Vec::new()
    }
}

/// A spawner's timer after a rise in difficulty: its interval is
/// `DIFFICULTY_STEP_MS` shorter but not below `MIN_SPAWN_INTERVAL_MS`, and an
/// interval already at or below that minimum stays as it is. The time elapsed
/// toward the next enemy is kept.
pub open spec fn hardened(t: Timer) -> Timer {
    if t.duration_ms <= MIN_SPAWN_INTERVAL_MS {
        t
    } else if t.duration_ms - DIFFICULTY_STEP_MS < MIN_SPAWN_INTERVAL_MS {
        Timer { duration_ms: MIN_SPAWN_INTERVAL_MS, ..t }
    } else {
        Timer { duration_ms: (t.duration_ms - DIFFICULTY_STEP_MS) as u64, ..t }
    }
}

/// Raises the difficulty for one spawner timer. Returns whether its interval
/// went down (`false` once it is at its minimum).
pub fn harden(timer: &mut Timer) -> (r: bool)
    requires
        old(timer).wf(),
    ensures
        *final(timer) == hardened(*old(timer)),
        final(timer).wf(),
        r == (old(timer).duration_ms > MIN_SPAWN_INTERVAL_MS),
{
    let dur = timer.duration();
    if dur <= MIN_SPAWN_INTERVAL_MS {
        false
    } else if dur - DIFFICULTY_STEP_MS < MIN_SPAWN_INTERVAL_MS {
        timer.set_duration(MIN_SPAWN_INTERVAL_MS);
        true
    } else {
        timer.set_duration(dur - DIFFICULTY_STEP_MS);
        true
    }
}

/// A rise in difficulty never lengthens an interval, and never brings one
/// that is above `MIN_SPAWN_INTERVAL_MS` below it.
pub proof fn interval_stays_above_floor(t: Timer)
    ensures
        hardened(t).duration_ms <= t.duration_ms,
        t.duration_ms >= MIN_SPAWN_INTERVAL_MS ==> hardened(t).duration_ms >= MIN_SPAWN_INTERVAL_MS,
        hardened(t).elapsed_ms == t.elapsed_ms,
{
}

/// What the spawners do in a frame.
#[derive(Debug)]
pub struct SpawnReport {
    /// For each spawner, whether it sends out an enemy.
    pub spawns: Vec<bool>,
    /// For each spawner, whether difficulty rose and shortened its interval
    /// (`false` for one already at its minimum).
    pub harder: Vec<bool>,
}

/// A spawner's timer after a frame of `dt_ms`, when the difficulty timer
/// went off (`rise`) or not.
pub open spec fn spawner_after(t: Timer, rise: bool, dt_ms: u32) -> Timer {
    if rise {
        hardened(t.ticked(dt_ms as u64))
    } else {
        t.ticked(dt_ms as u64)
    }
}

/// The spawners' frame of `dt_ms`: the difficulty timer ticks; then each
/// spawner's timer ticks, the spawner sends out an enemy if its timer is
/// finished, and its interval shrinks if the difficulty timer is finished.
/// Returns, for each spawner, whether it sends out an enemy and whether its
/// interval went down.
pub fn spawn_enemies(diff: &mut DifficultyTimer, timers: &mut Vec<EnemyTimer>, dt_ms: u32) -> (r: SpawnReport)
    requires
        old(diff).0.wf(),
        forall|i: int| 0 <= i < old(timers)@.len() ==> (#[trigger] old(timers)@[i]).0.wf(),
    ensures
        final(diff).0 == old(diff).0.ticked(dt_ms as u64),
        final(diff).0.wf(),
        final(timers)@.len() == old(timers)@.len(),
        r.spawns@.len() == old(timers)@.len(),
        r.harder@.len() == old(timers)@.len(),
        forall|i: int|
            0 <= i < old(timers)@.len() ==> (#[trigger] final(timers)@[i]).0 == spawner_after(
                old(timers)@[i].0,
                final(diff).0.finished,
                dt_ms,
            ) && final(timers)@[i].0.wf(),
        forall|i: int|
            0 <= i < old(timers)@.len() ==> #[trigger] r.spawns@[i] == old(timers)@[i].0.ticked(
                dt_ms as u64,
            ).finished,
        forall|i: int|
            0 <= i < old(timers)@.len() ==> #[trigger] r.harder@[i] == (final(diff).0.finished
                && old(timers)@[i].0.duration_ms > MIN_SPAWN_INTERVAL_MS),
{
    diff.0.tick(dt_ms as u64);
    let rise = diff.0.finished();
    let ghost start = timers@;
    let mut spawns: Vec<bool> = Vec::new();
    let mut harder: Vec<bool> = Vec::new();
    let mut i: usize = 0;
    while i < timers.len()
        invariant
            i <= timers@.len(),
            timers@.len() == start.len(),
            spawns@.len() == i,
            harder@.len() == i,
            forall|k: int|
                0 <= k < i ==> #[trigger] harder@[k] == (rise && start[k].0.duration_ms
                    > MIN_SPAWN_INTERVAL_MS),
            forall|k: int| 0 <= k < start.len() ==> (#[trigger] start[k]).0.wf(),
            forall|k: int|
                0 <= k < i ==> (#[trigger] timers@[k]).0 == spawner_after(start[k].0, rise, dt_ms)
                    && timers@[k].0.wf(),
            forall|k: int| i <= k < start.len() ==> #[trigger] timers@[k] == start[k],
            forall|k: int| 0 <= k < i ==> #[trigger] spawns@[k] == start[k].0.ticked(dt_ms as u64).finished,
        decreases start.len() - i,
    {
        let mut t = timers[i].0;
        t.tick(dt_ms as u64);
        spawns.push(t.finished());
        let shortened = if rise {
            harden(&mut t)
        } else {
            false
        };
        harder.push(shortened);
        timers.set(i, EnemyTimer(t));
        i = i + 1;
    }
    SpawnReport { spawns, harder }
}

/// A spawner's animation for a frame of `dt_ms`: its timer ticks, and when it
/// is finished the sprite moves to the next of `frames` frames.
pub fn spawner_animate(timer: &mut Timer, frame: &mut usize, frames: usize, dt_ms: u32)
    requires
        old(timer).wf(),
        frames > 0,
    ensures
        *final(timer) == old(timer).ticked(dt_ms as u64),
        final(timer).wf(),
        *final(frame) == if final(timer).finished {
            (*old(frame) + 1) % (frames as int)
        } else {
            *old(frame) as int
        },
{
    timer.tick(dt_ms as u64);
    if timer.finished() {
        *frame = next_frame(*frame, frames);
    }
}

/// The powerup clock after a frame of `dt_ms`, and whether a powerup is due:
/// once `POWERUP_PERIOD_MS` have accumulated, one is due and that much is
/// taken off. The clock saturates at `u64::MAX`.
pub open spec fn powerup_clock(e: u64, dt_ms: u32) -> (u64, bool) {
    let t = if e + dt_ms > u64::MAX {
        u64::MAX as int
    } else {
        e + dt_ms
    };
    if t >= POWERUP_PERIOD_MS {
        ((t - POWERUP_PERIOD_MS) as u64, true)
    } else {
        (t as u64, false)
    }
}

/// Advances the powerup clock by `dt_ms`; returns whether a powerup is due.
pub fn powerup_due(elapsed: &mut Elapsed, dt_ms: u32) -> (r: bool)
    ensures
        (final(elapsed).0, r) == powerup_clock(old(elapsed).0, dt_ms),
{
    let t = elapsed.0.saturating_add(dt_ms as u64);
    if t >= POWERUP_PERIOD_MS {
        elapsed.0 = t - POWERUP_PERIOD_MS;
        true
    } else {
        elapsed.0 = t;
        false
    }
}

/// A number drawn uniformly from `lo..=hi`.
///
/// Relies on `rand::Rng::gen_range` on `rand::thread_rng()`: with an inclusive
/// range, the value lies within it; it panics only on an empty range.
#[verifier::external_body]
fn random_between(lo: i32, hi: i32) -> (r: i32)
    requires
        lo <= hi,
    ensures
        lo <= r <= hi,
{
    rand::Rng::gen_range(&mut rand::thread_rng(), lo..=hi)
}

/// The powerup clock for a frame of `dt_ms`: when a powerup is due, returns a
/// random point of the screen for it and the powerup, which carries the split
/// attack.
pub fn spawn_powerups(elapsed: &mut Elapsed, dt_ms: u32) -> (r: Option<(Point, Powerup)>)
    ensures
        final(elapsed).0 == powerup_clock(old(elapsed).0, dt_ms).0,
        r is Some == powerup_clock(old(elapsed).0, dt_ms).1,
        r matches Some((p, pw)) ==> {
            &&& -HALF_WIDTH <= p.x <= HALF_WIDTH
            &&& -HALF_HEIGHT <= p.y <= HALF_HEIGHT
            &&& pw == (Powerup { attack: AttackKind::Split(Split) })
        },
{
    if powerup_due(elapsed, dt_ms) {
        let x = random_between(-HALF_WIDTH, HALF_WIDTH);
        let y = random_between(-HALF_HEIGHT, HALF_HEIGHT);
        Some((Point { x, y }, Powerup { attack: AttackKind::Split(Split) }))
    } else {
        None
    }
}

} // verus!
