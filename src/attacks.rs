//! Attack strategies: how many fireballs one shot fires, and at what targets.
use crate::geometry::{abs, along, close_to_length, lemma_along_length, offset, toward, translate, Point};
use crate::projectile::Fireball;
use vstd::prelude::*;

verus! {

/// Distance of a split shot's side targets from the aimed target, in
/// thousandths of a unit.
pub const SPREAD: u64 = 10_000;

/// A strategy for turning one shot from `origin` at `target` into fireballs.
pub trait Attack {
    /// The fireballs that a shot fires, in the order they are created.
    spec fn shots(&self, origin: Point, target: Point) -> Seq<Fireball>;

    /// Fires one shot from `origin` at `target`.
    fn attack(&self, origin: Point, target: Point) -> (r: Vec<Fireball>)
        ensures
            r@ == self.shots(origin, target),
    ;
}

/// One fireball, straight at the target.
#[derive(Clone, Copy, Debug, PartialEq, Eq, Structural)]
pub struct Basic;

/// Three fireballs: two at targets set off to either side of the aimed target,
/// then one straight at it.
#[derive(Clone, Copy, Debug, PartialEq, Eq, Structural)]
pub struct Split;

/// The offset of a split shot's first side target from the aimed target:
/// `SPREAD` along `(ry - |rx|, ry + |rx|)`, where `(rx, ry)` is the aim vector
/// from origin to target. That is the direction whose angle from the up axis
/// is the aim's unsigned angle from the up axis plus 45 degrees. A shot aimed
/// at its own origin has no offset.
pub open spec fn split_offset(origin: Point, target: Point) -> (int, int) {
    let rx = target.x - origin.x;
    let ry = target.y - origin.y;
    let ax = if rx < 0 {
        -rx
    } else {
        rx
    };
    along(ry - ax, ry + ax, SPREAD as int)
}

/// The fireballs of a split shot.
pub open spec fn split_shots(origin: Point, target: Point) -> Seq<Fireball> {
    let d = split_offset(origin, target);
    seq![
        Fireball { origin, target: offset(target, d.0, d.1) },
        Fireball { origin, target: offset(target, -d.0, -d.1) },
        Fireball { origin, target },
    ]
}

impl Attack for Basic {
    open spec fn shots(&self, origin: Point, target: Point) -> Seq<Fireball> {
        seq![Fireball { origin, target }]
    }

    fn attack(&self, origin: Point, target: Point) -> (r: Vec<Fireball>) {
        let mut r: Vec<Fireball> = Vec::new();
        r.push(Fireball { origin, target });
        r
    }
}

impl Attack for Split {
    open spec fn shots(&self, origin: Point, target: Point) -> Seq<Fireball> {
        split_shots(origin, target)
    }

    fn attack(&self, origin: Point, target: Point) -> (r: Vec<Fireball>) {
        let rx = target.x as i64 - origin.x as i64;
        let ry = target.y as i64 - origin.y as i64;
        let ax = if rx < 0 {
            -rx
        } else {
            rx
        };
        let d = toward(ry - ax, ry + ax, SPREAD);
        let mut r: Vec<Fireball> = Vec::new();
        r.push(Fireball { origin, target: translate(target, d.0, d.1) });
        r.push(Fireball { origin, target: translate(target, -d.0, -d.1) });
        r.push(Fireball { origin, target });
        assert(r@ =~= split_shots(origin, target));
        r
    }
}

/// The attack strategies that the player can hold.
#[derive(Clone, Copy, Debug, PartialEq, Eq, Structural)]
pub enum AttackKind {
    Basic(Basic),
    Split(Split),
}

impl Attack for AttackKind {
    open spec fn shots(&self, origin: Point, target: Point) -> Seq<Fireball> {
        match self {
            AttackKind::Basic(b) => b.shots(origin, target),
            AttackKind::Split(s) => s.shots(origin, target),
        }
    }

    fn attack(&self, origin: Point, target: Point) -> (r: Vec<Fireball>) {
        match self {
            AttackKind::Basic(b) => b.attack(origin, target),
            AttackKind::Split(s) => s.attack(origin, target),
        }
    }
}

/// The strategy that the fire control uses.
#[derive(Clone, Copy, Debug, PartialEq, Eq, Structural)]
pub struct CurrentAttack(pub AttackKind);

/// A pickup that carries an attack strategy for the player.
#[derive(Clone, Copy, Debug, PartialEq, Eq, Structural)]
pub struct Powerup {
    pub attack: AttackKind,
}

/// A split shot's side targets lie on opposite sides of the aimed target, at
/// the same distance: each is the other reflected through it, when neither
/// reaches the edge of the coordinate range. When the shot is not aimed at its
/// own origin, that distance is `SPREAD` up to rounding, so the two side
/// targets differ.
pub proof fn split_is_symmetric(origin: Point, target: Point)
    requires
        i32::MIN <= target.x + split_offset(origin, target).0 <= i32::MAX,
        i32::MIN <= target.y + split_offset(origin, target).1 <= i32::MAX,
        i32::MIN <= target.x - split_offset(origin, target).0 <= i32::MAX,
        i32::MIN <= target.y - split_offset(origin, target).1 <= i32::MAX,
    ensures
        Split.shots(origin, target).len() == 3,
        Split.shots(origin, target)[2].target == target,
        Split.shots(origin, target)[0].target.x - target.x == target.x - Split.shots(
            origin,
            target,
        )[1].target.x,
        Split.shots(origin, target)[0].target.y - target.y == target.y - Split.shots(
            origin,
            target,
        )[1].target.y,
        origin != target ==> close_to_length(
            split_offset(origin, target).0,
            split_offset(origin, target).1,
            SPREAD as int,
        ),
        origin != target ==> Split.shots(origin, target)[0].target != Split.shots(
            origin,
            target,
        )[1].target,
{
    if origin != target {
        let rx = target.x - origin.x;
        let ry = target.y - origin.y;
        let ax = if rx < 0 {
            -rx
        } else {
            rx
        };
        assert(ry - ax != 0 || ry + ax != 0);
        lemma_along_length(ry - ax, ry + ax, SPREAD as int);
        let d = split_offset(origin, target);
        assert(d.0 != 0 || d.1 != 0) by {
            assert(close_to_length(d.0, d.1, SPREAD as int));
            if d.0 == 0 && d.1 == 0 {
                assert(abs(d.0) == 0 && abs(d.1) == 0);
                assert((abs(d.0) + 1) * (abs(d.0) + 1) + (abs(d.1) + 1) * (abs(d.1) + 1) == 2)
                    by (nonlinear_arith)
                    requires
                        abs(d.0) == 0,
                        abs(d.1) == 0,
                ;
                assert((SPREAD as int) * (SPREAD as int) == 100_000_000) by (nonlinear_arith)
                    requires
                        SPREAD == 10_000,
                ;
            }
        }
    }
}

} // verus!
