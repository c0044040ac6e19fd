//! Axis-aligned box collisions: which side was struck, how a body is pushed
//! out of a solid one, and the three collision passes of a frame.
//!
//! Box edges are computed in doubled coordinates (`2 * center ± size`), so a
//! box of odd size keeps exact edges.
use crate::geometry::{abs, div_floor, sat, saturate, Hitbox, Point};
use vstd::prelude::*;

verus! {

/// The side of the struck box that the moving box ran into.
#[derive(Clone, Copy, Debug, PartialEq, Eq, Structural)]
pub enum Collision {
    Left,
    Right,
    Top,
    Bottom,
}

/// How a body takes part in collisions.
#[derive(Clone, Copy, Debug, PartialEq, Eq, Structural)]
pub enum Collider {
    Solid,
    Enemy,
    Projectile,
}

/// A box: its center and its size.
#[derive(Clone, Copy, Debug, PartialEq, Eq, Structural)]
pub struct Body {
    pub pos: Point,
    pub size: Hitbox,
}

/// A body together with its collider tag.
#[derive(Clone, Copy, Debug, PartialEq, Eq, Structural)]
pub struct Collidable {
    pub body: Body,
    pub collider: Collider,
}

/// Left edge of `b`, doubled.
pub open spec fn lo_x(b: Body) -> int {
    2 * b.pos.x - b.size.w
}

/// Right edge of `b`, doubled.
pub open spec fn hi_x(b: Body) -> int {
    2 * b.pos.x + b.size.w
}

/// Bottom edge of `b`, doubled.
pub open spec fn lo_y(b: Body) -> int {
    2 * b.pos.y - b.size.h
}

/// Top edge of `b`, doubled.
pub open spec fn hi_y(b: Body) -> int {
    2 * b.pos.y + b.size.h
}

/// Whether the interiors of `a` and `b` intersect.
pub open spec fn overlaps(a: Body, b: Body) -> bool {
    &&& lo_x(a) < hi_x(b)
    &&& hi_x(a) > lo_x(b)
    &&& lo_y(a) < hi_y(b)
    &&& hi_y(a) > lo_y(b)
}

/// The side struck on the horizontal axis, with its (doubled, signed) depth:
/// `a` reaches into `b` across exactly one of `b`'s vertical edges.
pub open spec fn x_contact(a: Body, b: Body) -> Option<(Collision, int)> {
    if lo_x(a) < lo_x(b) && hi_x(a) > lo_x(b) && hi_x(a) < hi_x(b) {
        Some((Collision::Left, lo_x(b) - hi_x(a)))
    } else if lo_x(a) > lo_x(b) && lo_x(a) < hi_x(b) && hi_x(a) > hi_x(b) {
        Some((Collision::Right, lo_x(a) - hi_x(b)))
    } else {
        None
    }
}

/// The side struck on the vertical axis, with its (doubled, signed) depth.
pub open spec fn y_contact(a: Body, b: Body) -> Option<(Collision, int)> {
    if lo_y(a) < lo_y(b) && hi_y(a) > lo_y(b) && hi_y(a) < hi_y(b) {
        Some((Collision::Bottom, lo_y(b) - hi_y(a)))
    } else if lo_y(a) > lo_y(b) && lo_y(a) < hi_y(b) && hi_y(a) > hi_y(b) {
        Some((Collision::Top, lo_y(a) - hi_y(b)))
    } else {
        None
    }
}

/// The side of `b` that `a` struck, if they overlap and `a` crosses an edge of
/// `b`. Where it crosses one edge on each axis, the axis of the shallower
/// penetration wins, the horizontal one on a tie.
pub open spec fn collision_of(a: Body, b: Body) -> Option<Collision> {
    if !overlaps(a, b) {
        None
    } else {
        match (x_contact(a, b), y_contact(a, b)) {
            (Some(x), Some(y)) => if abs(y.1) < abs(x.1) {
                Some(y.0)
            } else {
                Some(x.0)
            },
            (Some(x), None) => Some(x.0),
            (None, Some(y)) => Some(y.0),
            (None, None) => None,
        }
    }
}

/// The doubled coordinate, on the struck side's axis, at which `a` rests
/// against that side of `b`.
pub open spec fn resting_edge(a: Body, b: Body, side: Collision) -> int {
    match side {
        Collision::Top => hi_y(b) + a.size.h,
        Collision::Bottom => lo_y(b) - a.size.h,
        Collision::Left => lo_x(b) - a.size.w,
        Collision::Right => hi_x(b) + a.size.w,
    }
}

/// A doubled coordinate halved and rounded down to a whole unit.
pub open spec fn snap_down(d2: int) -> int {
    (d2 / 2000) * 1000
}

/// A doubled coordinate halved and rounded up to a whole unit.
pub open spec fn snap_up(d2: int) -> int {
    -(((-d2) / 2000) * 1000)
}

/// Where `a` stands once pushed out of `b` through `side`: moved on that side's
/// axis only, to rest against it, then rounded to a whole unit (up when
/// `round_up`, else down).
pub open spec fn resolved(a: Body, b: Body, side: Collision, round_up: bool) -> Point {
    let d2 = resting_edge(a, b, side);
    let v = sat(
        if round_up {
            snap_up(d2)
        } else {
            snap_down(d2)
        },
    ) as i32;
    match side {
        Collision::Top | Collision::Bottom => Point { x: a.pos.x, y: v },
        Collision::Left | Collision::Right => Point { x: v, y: a.pos.y },
    }
}

/// The player's position after meeting `other`: pushed out of it (rounding
/// down) when it is solid and was struck, else unchanged.
pub open spec fn player_step(pos: Point, size: Hitbox, other: Collidable) -> Point {
    let a = Body { pos, size };
    match collision_of(a, other.body) {
        Some(side) => if other.collider is Solid {
            resolved(a, other.body, side, false)
        } else {
            pos
        },
        None => pos,
    }
}

/// The player's position after meeting the first `n` of `others` in turn.
pub open spec fn player_pos_after(pos: Point, size: Hitbox, others: Seq<Collidable>, n: int) -> Point
    decreases n,
{
    if n <= 0 {
        pos
    } else {
        player_step(player_pos_after(pos, size, others, n - 1), size, others[n - 1])
    }
}

/// Whether the player, where it stands on meeting `others[j]`, is hit by it:
/// it is an enemy and the two collide.
pub open spec fn player_hit(pos: Point, size: Hitbox, others: Seq<Collidable>, j: int) -> bool {
    &&& others[j].collider is Enemy
    &&& collision_of(Body { pos: player_pos_after(pos, size, others, j), size }, others[j].body) is Some
}

/// Where enemy `a` stands after being checked against enemy `b`: pushed out of
/// it (rounding down, as the player is pushed out of a solid) when it struck
/// it, else unchanged.
pub open spec fn enemy_pushed(a: Body, b: Body) -> Point {
    match collision_of(a, b) {
        Some(side) => resolved(a, b, side, false),
        None => a.pos,
    }
}

/// One enemy pass: enemies are taken in pairs in order (first and second,
/// third and fourth, ...); the first of each pair is pushed out of the second.
/// The second of a pair, and a last enemy left without a partner, stay put.
pub open spec fn enemy_pass(s: Seq<Body>) -> Seq<Body> {
    Seq::new(
        s.len(),
        |i: int|
            if i % 2 == 0 && i + 1 < s.len() {
                Body { pos: enemy_pushed(s[i], s[i + 1]), size: s[i].size }
            } else {
                s[i]
            },
    )
}

/// Whether fireball `ball` strikes `other`: they collide and `other` is an
/// enemy or solid.
pub open spec fn strikes(ball: Body, other: Collidable) -> bool {
    &&& collision_of(ball, other.body) is Some
    &&& (other.collider is Enemy || other.collider is Solid)
}

/// The outcome of the player's collision pass.
#[derive(Debug)]
pub struct PlayerContacts {
    /// The player's position after being pushed out of solids.
    pub pos: Point,
    /// For each body met, whether it was an enemy that hit the player (it is
    /// removed and the player takes a hit).
    pub hits: Vec<bool>,
}

/// The outcome of the fireballs' collision pass.
#[derive(Debug)]
pub struct FireballHits {
    /// For each fireball, whether it struck something and is removed.
    pub balls: Vec<bool>,
    /// For each body, whether it was an enemy struck by a fireball and is
    /// removed.
    pub targets: Vec<bool>,
}

/// The side of `b` that `a` struck: see `collision_of`.
pub fn collide(a: &Body, b: &Body) -> (r: Option<Collision>)
    ensures
        r == collision_of(*a, *b),
{
    let a_lo_x = 2 * a.pos.x as i64 - a.size.w as i64;
    let a_hi_x = 2 * a.pos.x as i64 + a.size.w as i64;
    let a_lo_y = 2 * a.pos.y as i64 - a.size.h as i64;
    let a_hi_y = 2 * a.pos.y as i64 + a.size.h as i64;
    let b_lo_x = 2 * b.pos.x as i64 - b.size.w as i64;
    let b_hi_x = 2 * b.pos.x as i64 + b.size.w as i64;
    let b_lo_y = 2 * b.pos.y as i64 - b.size.h as i64;
    let b_hi_y = 2 * b.pos.y as i64 + b.size.h as i64;
    if !(a_lo_x < b_hi_x && a_hi_x > b_lo_x && a_lo_y < b_hi_y && a_hi_y > b_lo_y) {
        return None;
    }
    let x: Option<(Collision, i64)> = if a_lo_x < b_lo_x && a_hi_x > b_lo_x && a_hi_x < b_hi_x {
        Some((Collision::Left, b_lo_x - a_hi_x))
    } else if a_lo_x > b_lo_x && a_lo_x < b_hi_x && a_hi_x > b_hi_x {
        Some((Collision::Right, a_lo_x - b_hi_x))
    } else {
        None
    };
    let y: Option<(Collision, i64)> = if a_lo_y < b_lo_y && a_hi_y > b_lo_y && a_hi_y < b_hi_y {
        Some((Collision::Bottom, b_lo_y - a_hi_y))
    } else if a_lo_y > b_lo_y && a_lo_y < b_hi_y && a_hi_y > b_hi_y {
        Some((Collision::Top, a_lo_y - b_hi_y))
    } else {
        None
    };
    match (x, y) {
        (Some(xc), Some(yc)) => {
            let xd = if xc.1 < 0 {
                -xc.1
            } else {
                xc.1
            };
            let yd = if yc.1 < 0 {
                -yc.1
            } else {
                yc.1
            };
            if yd < xd {
                Some(yc.0)
            } else {
                Some(xc.0)
            }
        },
        (Some(xc), None) => Some(xc.0),
        (None, Some(yc)) => Some(yc.0),
        (None, None) => None,
    }
}

/// Pushes `a` out of `b` through `side`: see `resolved`.
pub fn resolve(a: &Body, b: &Body, side: Collision, round_up: bool) -> (r: Point)
    ensures
        r == resolved(*a, *b, side, round_up),
{
    let d2: i64 = match side {
        Collision::Top => 2 * b.pos.y as i64 + b.size.h as i64 + a.size.h as i64,
        Collision::Bottom => 2 * b.pos.y as i64 - b.size.h as i64 - a.size.h as i64,
        Collision::Left => 2 * b.pos.x as i64 - b.size.w as i64 - a.size.w as i64,
        Collision::Right => 2 * b.pos.x as i64 + b.size.w as i64 + a.size.w as i64,
    };
    let snapped: i64 = if round_up {
        -(div_floor(-d2, 2000) * 1000)
    } else {
        div_floor(d2, 2000) * 1000
    };
    let v = saturate(snapped as i128);
    match side {
        Collision::Top | Collision::Bottom => Point { x: a.pos.x, y: v },
        Collision::Left | Collision::Right => Point { x: v, y: a.pos.y },
    }
}

/// The player's collision pass: the player meets each body in turn, is pushed
/// out of the solid ones it struck, and is hit by the enemies it touches.
pub fn collide_player(player: &Body, others: &Vec<Collidable>) -> (r: PlayerContacts)
    ensures
        r.pos == player_pos_after(player.pos, player.size, others@, others@.len() as int),
        r.hits@.len() == others@.len(),
        forall|j: int|
            0 <= j < others@.len() ==> r.hits@[j] == player_hit(
                player.pos,
                player.size,
                others@,
                j,
            ),
{
    let mut pos = player.pos;
    let mut hits: Vec<bool> = Vec::new();
    let mut j: usize = 0;
    while j < others.len()
        invariant
            j <= others@.len(),
            pos == player_pos_after(player.pos, player.size, others@, j as int),
            hits@.len() == j,
            forall|k: int|
                0 <= k < j ==> hits@[k] == player_hit(player.pos, player.size, others@, k),
        decreases others@.len() - j,
    {
        let other = others[j];
        let me = Body { pos, size: player.size };
        let c = collide(&me, &other.body);
        let mut hit = false;
        match c {
            Some(side) => {
                match other.collider {
                    Collider::Enemy => {
                        hit = true;
                    },
                    Collider::Solid => {
                        pos = resolve(&me, &other.body, side, false);
                    },
                    Collider::Projectile => {},
                }
            },
            None => {},
        }
        hits.push(hit);
        j = j + 1;
    }
    PlayerContacts { pos, hits }
}

/// The enemies' collision pass: see `enemy_pass`.
pub fn collide_enemies(enemies: &mut Vec<Body>)
    ensures
        final(enemies)@ == enemy_pass(old(enemies)@),
{
    let ghost start = enemies@;
    let n = enemies.len();
    let mut i: usize = 0;
    while i + 1 < n
        invariant
            n == start.len(),
            enemies@.len() == n,
            i % 2 == 0,
            i <= n,
            forall|k: int| 0 <= k < i ==> enemies@[k] == enemy_pass(start)[k],
            forall|k: int| i <= k < n ==> enemies@[k] == start[k],
        decreases n - i,
    {
        let a = enemies[i];
        let b = enemies[i + 1];
        let pushed = match collide(&a, &b) {
            Some(side) => resolve(&a, &b, side, false),
            None => a.pos,
        };
        enemies.set(i, Body { pos: pushed, size: a.size });
        i = i + 2;
    }
    assert(enemies@ =~= enemy_pass(start));
}

/// The fireballs' collision pass: a fireball that strikes an enemy removes
/// both; one that strikes a solid is removed; other bodies are ignored.
pub fn collide_fireballs(balls: &Vec<Body>, others: &Vec<Collidable>) -> (r: FireballHits)
    ensures
        r.balls@.len() == balls@.len(),
        r.targets@.len() == others@.len(),
        forall|i: int|
            0 <= i < balls@.len() ==> (r.balls@[i] <==> exists|j: int|
                0 <= j < others@.len() && strikes(balls@[i], others@[j])),
        forall|j: int|
            0 <= j < others@.len() ==> (r.targets@[j] <==> others@[j].collider is Enemy
                && exists|i: int|
                0 <= i < balls@.len() && #[trigger] collision_of(balls@[i], others@[j].body) is Some),
{
    let mut targets: Vec<bool> = Vec::new();
    let mut k: usize = 0;
    while k < others.len()
        invariant
            k <= others@.len(),
            targets@.len() == k,
            forall|j: int| 0 <= j < k ==> !targets@[j],
        decreases others@.len() - k,
    {
        targets.push(false);
        k = k + 1;
    }
    let mut hit_balls: Vec<bool> = Vec::new();
    let mut i: usize = 0;
    while i < balls.len()
        invariant
            i <= balls@.len(),
            hit_balls@.len() == i,
            targets@.len() == others@.len(),
            forall|b: int|
                0 <= b < i ==> (hit_balls@[b] <==> exists|j: int|
                    0 <= j < others@.len() && strikes(balls@[b], others@[j])),
            forall|j: int|
                0 <= j < others@.len() ==> (targets@[j] <==> others@[j].collider is Enemy
                    && exists|b: int|
                    0 <= b < i && #[trigger] collision_of(balls@[b], others@[j].body) is Some),
        decreases balls@.len() - i,
    {
        let ball = balls[i];
        let mut struck = false;
        let mut j: usize = 0;
        while j < others.len()
            invariant
                i < balls@.len(),
                ball == balls@[i as int],
                j <= others@.len(),
                targets@.len() == others@.len(),
                struck <==> exists|m: int| 0 <= m < j && strikes(ball, others@[m]),
                forall|m: int|
                    0 <= m < j ==> (targets@[m] <==> others@[m].collider is Enemy
                        && exists|b: int|
                        0 <= b <= i && #[trigger] collision_of(balls@[b], others@[m].body) is Some),
                forall|m: int|
                    j <= m < others@.len() ==> (targets@[m] <==> others@[m].collider is Enemy
                        && exists|b: int|
                        0 <= b < i && #[trigger] collision_of(balls@[b], others@[m].body) is Some),
            decreases others@.len() - j,
        {
            let other = others[j];
            let c = collide(&ball, &other.body);
            if c.is_some() {
                match other.collider {
                    Collider::Enemy => {
                        struck = true;
                        targets.set(j, true);
                    },
                    Collider::Solid => {
                        struck = true;
                    },
                    Collider::Projectile => {},
                }
            }
            proof {
                if c is Some {
                    assert(collision_of(balls@[i as int], others@[j as int].body) is Some);
                }
            }
            j = j + 1;
        }
        hit_balls.push(struck);
        i = i + 1;
    }
    FireballHits { balls: hit_balls, targets }
}

/// Pushing out rests the body against the struck side: on the vertical axis
/// for `Top`, the new position is the old one less the (signed) overlap depth
/// `(y - h/2) - (top of b)`, rounded down to a whole unit when not rounding up.
pub proof fn top_push_removes_depth(a: Body, b: Body)
    ensures
        resolved(a, b, Collision::Top, false).y == sat(
            snap_down(2 * a.pos.y - (lo_y(a) - hi_y(b))),
        ),
        resolved(a, b, Collision::Top, false).x == a.pos.x,
{
}

/// Pushing out again changes nothing: the resting position depends on the
/// struck body, the side and the pushed body's size only. And a body that no
/// longer strikes a solid is left where it is by the player's pass.
pub proof fn push_out_is_idempotent(a: Body, b: Body, side: Collision, round_up: bool)
    ensures
        resolved(
            Body { pos: resolved(a, b, side, round_up), size: a.size },
            b,
            side,
            round_up,
        ) == resolved(a, b, side, round_up),
        collision_of(Body { pos: resolved(a, b, side, round_up), size: a.size }, b) is None
            ==> player_step(
            resolved(a, b, side, round_up),
            a.size,
            Collidable { body: b, collider: Collider::Solid },
        ) == resolved(a, b, side, round_up),
{
}

/// Bodies that the player does not strike where it stands leave it there and
/// do not hit it, however many of them the pass meets.
pub proof fn untouched_bodies_leave_player(pos: Point, size: Hitbox, others: Seq<Collidable>, n: int)
    requires
        0 <= n <= others.len(),
        forall|j: int|
            0 <= j < others.len() ==> #[trigger] collision_of(
                Body { pos, size },
                others[j].body,
            ) is None,
    ensures
        player_pos_after(pos, size, others, n) == pos,
        forall|j: int| 0 <= j < n ==> !#[trigger] player_hit(pos, size, others, j),
    decreases n,
{
    if n > 0 {
        untouched_bodies_leave_player(pos, size, others, n - 1);
        assert(collision_of(Body { pos, size }, others[n - 1].body) is None);
    }
}

/// With three enemies, one pass checks the first against the second only:
/// the second and the third are left untouched.
pub proof fn three_enemies_one_pair(s: Seq<Body>)
    requires
        s.len() == 3,
    ensures
        enemy_pass(s).len() == 3,
        enemy_pass(s)[0] == (Body { pos: enemy_pushed(s[0], s[1]), size: s[0].size }),
        enemy_pass(s)[1] == s[1],
        enemy_pass(s)[2] == s[2],
{
}

} // verus!
