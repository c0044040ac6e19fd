//! The level as it stands at startup, and the tracking of the mouse cursor.
use crate::attacks::{AttackKind, CurrentAttack, Split};
use crate::collision::Collider;
use crate::gameplay::{DifficultyTimer, EnemyTimer, FireballTimer, Player};
use crate::geometry::{offset, translate, Point};
use crate::projectile::{HALF_HEIGHT, HALF_WIDTH};
use crate::timer::Timer;
use crate::ui::Index;
use vstd::prelude::*;

verus! {

/// The player's speed, in units per second.
pub const PLAYER_SPEED: u32 = 200;

/// How far the spawners stand in from the screen's edges.
pub const SPAWNER_INSET: i32 = 100_000;

/// Interval between fireballs while aiming.
pub const FIRE_INTERVAL_MS: u64 = 100;

/// Interval between rises in difficulty.
pub const DIFFICULTY_INTERVAL_MS: u64 = 30_000;

/// A spawner's starting interval between enemies.
pub const SPAWN_INTERVAL_MS: u64 = 2_000;

/// Interval between a spawner's animation frames.
pub const SPAWNER_FRAME_MS: u64 = 120;

/// Frames in a spawner's sprite sheet.
pub const SPAWNER_FRAMES: usize = 3;

/// Frames in a heart's sprite sheet (full, empty).
pub const HEART_FRAMES: usize = 2;

/// The level at startup.
#[derive(Debug)]
pub struct Level {
    pub player: Player,
    pub player_pos: Point,
    pub reticle_pos: Point,
    pub fire_timer: FireballTimer,
    pub difficulty: DifficultyTimer,
    pub attack: CurrentAttack,
    /// The spawners.
    pub spawners: Vec<Spawner>,
    /// Where the heart icons stand, with their indices.
    pub hearts: Vec<(Point, Index)>,
}

/// An enemy spawner: where it stands, its collider tag, its timer for
/// sending out enemies, and its animation timer and frame.
#[derive(Clone, Copy, Debug, PartialEq, Eq, Structural)]
pub struct Spawner {
    pub pos: Point,
    pub collider: Collider,
    pub spawn_timer: EnemyTimer,
    pub frame_timer: Timer,
    pub frame: usize,
}

/// A spawner as set up at `pos`: solid, with fresh repeating timers of
/// `SPAWN_INTERVAL_MS` and `SPAWNER_FRAME_MS`, on its first frame.
pub open spec fn spawner_at(pos: Point) -> Spawner {
    Spawner {
        pos,
        collider: Collider::Solid,
        spawn_timer: EnemyTimer(Timer::fresh(SPAWN_INTERVAL_MS, true)),
        frame_timer: Timer::fresh(SPAWNER_FRAME_MS, true),
        frame: 0,
    }
}

/// The point `(x, y)`.
pub open spec fn pt(x: int, y: int) -> Point {
    Point { x: x as i32, y: y as i32 }
}

/// The spawners' places: the four corners of the screen, each `SPAWNER_INSET`
/// in from both edges. The points straight above, below and beside the
/// center are left out.
pub open spec fn spawner_places() -> Seq<Point> {
    let x = HALF_WIDTH - SPAWNER_INSET;
    let y = HALF_HEIGHT - SPAWNER_INSET;
    seq![pt(-x, -y), pt(-x, y), pt(x, -y), pt(x, y)]
}

/// The heart icons' places: three in a row from the top-left corner.
pub open spec fn heart_places() -> Seq<(Point, Index)> {
    Seq::new(
        3,
        |i: int|
            (
                pt(-HALF_WIDTH + 36_000 * i + 20_000, HALF_HEIGHT - 20_000),
                Index(i as i32),
            ),
    )
}

/// A new spawner's timer for sending out enemies.
pub fn spawn_timer() -> (r: Timer)
    ensures
        r == Timer::fresh(SPAWN_INTERVAL_MS, true),
        r.wf(),
{
    Timer::from_millis(SPAWN_INTERVAL_MS, true)
}

/// A new spawner's animation timer.
pub fn spawner_frame_timer() -> (r: Timer)
    ensures
        r == Timer::fresh(SPAWNER_FRAME_MS, true),
        r.wf(),
{
    Timer::from_millis(SPAWNER_FRAME_MS, true)
}

/// A spawner set up at `pos`: see `spawner_at`.
pub fn new_spawner(pos: Point) -> (r: Spawner)
    ensures
        r == spawner_at(pos),
        r.spawn_timer.0.wf(),
        r.frame_timer.wf(),
{
    Spawner {
        pos,
        collider: Collider::Solid,
        spawn_timer: EnemyTimer(spawn_timer()),
        frame_timer: spawner_frame_timer(),
        frame: 0,
    }
}

/// The level at startup: the player at the center with the reticle to its
/// right, a paused fire timer, the split attack, the spawners and the hearts.
pub fn setup() -> (r: Level)
    ensures
        r.player == (Player { speed: PLAYER_SPEED, mod_x: 0, mod_y: 0 }),
        r.player_pos == (Point { x: 0, y: 0 }),
        r.reticle_pos == (Point { x: 100_000, y: 0 }),
        r.fire_timer.0 == (Timer { paused: true, ..Timer::fresh(FIRE_INTERVAL_MS, true) }),
        r.fire_timer.0.wf(),
        r.difficulty.0 == Timer::fresh(DIFFICULTY_INTERVAL_MS, true),
        r.difficulty.0.wf(),
        r.attack == CurrentAttack(AttackKind::Split(Split)),
        r.spawners@.len() == spawner_places().len(),
        forall|i: int|
            0 <= i < spawner_places().len() ==> #[trigger] r.spawners@[i] == spawner_at(
                spawner_places()[i],
            ),
        r.hearts@ == heart_places(),
{
    let mut fire = Timer::from_millis(FIRE_INTERVAL_MS, true);
    fire.pause();
    fire.reset();
    let x = HALF_WIDTH - SPAWNER_INSET;
    let y = HALF_HEIGHT - SPAWNER_INSET;
    let mut spawners: Vec<Spawner> = Vec::new();
    spawners.push(new_spawner(Point { x: -x, y: -y }));
    spawners.push(new_spawner(Point { x: -x, y }));
    spawners.push(new_spawner(Point { x, y: -y }));
    spawners.push(new_spawner(Point { x, y }));
    let mut hearts: Vec<(Point, Index)> = Vec::new();
    let mut i: i32 = 0;
    while i < 3
        invariant
            0 <= i <= 3,
            hearts@.len() == i,
            forall|k: int| 0 <= k < i ==> hearts@[k] == heart_places()[k],
        decreases 3 - i,
    {
        hearts.push((Point { x: -HALF_WIDTH + 36_000 * i + 20_000, y: HALF_HEIGHT - 20_000 }, Index(i)));
        i = i + 1;
    }
    assert(hearts@ =~= heart_places());
    Level {
        player: Player::new(PLAYER_SPEED),
        player_pos: Point { x: 0, y: 0 },
        reticle_pos: Point { x: 100_000, y: 0 },
        fire_timer: FireballTimer(fire),
        difficulty: DifficultyTimer(Timer::from_millis(DIFFICULTY_INTERVAL_MS, true)),
        attack: CurrentAttack(AttackKind::Split(Split)),
        spawners,
        hearts,
    }
}

/// The mouse state after the cursor events of one frame, given as points of
/// the world relative to the camera: each event puts the mouse at its point
/// offset by the player's position, and adds to `delta` how far the mouse then
/// is from where it was at the frame's start.
pub open spec fn mouse_after(pos: Point, delta: Point, start: Point, cursors: Seq<Point>, player: Point) -> (Point, Point)
    decreases cursors.len(),
{
    if cursors.len() == 0 {
        (pos, delta)
    } else {
        let prev = mouse_after(pos, delta, start, cursors.drop_last(), player);
        let c = cursors.last();
        let p = offset(c, player.x as int, player.y as int);
        (p, offset(prev.1, p.x - start.x, p.y - start.y))
    }
}

/// Tracks the mouse through a frame's cursor events: see `mouse_after`.
pub fn mouse_sys(pos: &mut Point, delta: &mut Point, cursors: &Vec<Point>, player: Point)
    ensures
        (*final(pos), *final(delta)) == mouse_after(*old(pos), *old(delta), *old(pos), cursors@, player),
{
    let start = *pos;
    let mut i: usize = 0;
    while i < cursors.len()
        invariant
            i <= cursors@.len(),
            (*pos, *delta) == mouse_after(*old(pos), *old(delta), start, cursors@.take(i as int), player),
            start == *old(pos),
        decreases cursors@.len() - i,
    {
        let c = cursors[i];
        let p = translate(c, player.x as i128, player.y as i128);
        *pos = p;
        *delta = translate(*delta, p.x as i128 - start.x as i128, p.y as i128 - start.y as i128);
        proof {
            assert(cursors@.take(i + 1).drop_last() =~= cursors@.take(i as int));
        }
        i = i + 1;
    }
    assert(cursors@.take(cursors@.len() as int) =~= cursors@);
}

} // verus!
