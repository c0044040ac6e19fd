//! Fireballs: projectiles that fly from where they were fired toward a fixed
//! target direction and leave play once far enough off screen.
use crate::geometry::{along, close_to_length, lemma_along_length, offset, toward, translate, Point};
use vstd::prelude::*;

verus! {

/// Fireball speed, in world units per second.
pub const FIREBALL_SPEED: u32 = 500;

/// Half the playfield's width, in thousandths of a unit.
pub const HALF_WIDTH: i32 = 640_000;

/// Half the playfield's height, in thousandths of a unit.
pub const HALF_HEIGHT: i32 = 360_000;

/// How far past the playfield's edge a fireball may fly before it is removed.
pub const DESPAWN_MARGIN: i32 = 100_000;

/// A fireball in flight. Both points are fixed when it is fired: its direction
/// of travel is from `origin` toward `target`, wherever it is now.
#[derive(Clone, Copy, Debug, PartialEq, Eq, Structural)]
pub struct Fireball {
    pub origin: Point,
    pub target: Point,
}

/// Whether `p` lies beyond the playfield plus the despawn margin on some axis.
pub open spec fn off_field(p: Point) -> bool {
    ||| p.x > HALF_WIDTH + DESPAWN_MARGIN
    ||| p.x < -(HALF_WIDTH + DESPAWN_MARGIN)
    ||| p.y > HALF_HEIGHT + DESPAWN_MARGIN
    ||| p.y < -(HALF_HEIGHT + DESPAWN_MARGIN)
}

impl Fireball {
    /// The travel in `dt_ms` milliseconds: `FIREBALL_SPEED * dt_ms` thousandths
    /// of a unit along the direction from origin to target (none when the two
    /// coincide).
    pub open spec fn travel(self, dt_ms: u32) -> (int, int) {
        along(
            self.target.x - self.origin.x,
            self.target.y - self.origin.y,
            FIREBALL_SPEED * dt_ms,
        )
    }

    /// Where a fireball at `pos` is after `dt_ms` milliseconds.
    pub open spec fn moved(self, pos: Point, dt_ms: u32) -> Point {
        offset(pos, self.travel(dt_ms).0, self.travel(dt_ms).1)
    }

    /// Moves a fireball at `pos` on by `dt_ms` milliseconds. Returns its new
    /// position, or `None` when that position is off the field and the fireball
    /// is to be removed.
    pub fn advance(&self, pos: Point, dt_ms: u32) -> (r: Option<Point>)
        ensures
            off_field(self.moved(pos, dt_ms)) ==> r is None,
            !off_field(self.moved(pos, dt_ms)) ==> r == Some(self.moved(pos, dt_ms)),
    {
        let dx = self.target.x as i64 - self.origin.x as i64;
        let dy = self.target.y as i64 - self.origin.y as i64;
        assert((FIREBALL_SPEED as int) * (dt_ms as int) <= 500 * 0xffff_ffff) by (nonlinear_arith)
            requires
                FIREBALL_SPEED == 500,
                dt_ms <= 0xffff_ffff,
        ;
        let step = toward(dx, dy, FIREBALL_SPEED as u64 * dt_ms as u64);
        let p = translate(pos, step.0, step.1);
        let limit_x = HALF_WIDTH + DESPAWN_MARGIN;
        let limit_y = HALF_HEIGHT + DESPAWN_MARGIN;
        if p.x > limit_x || p.x < -limit_x || p.y > limit_y || p.y < -limit_y {
            None
        } else {
            Some(p)
        }
    }
}

/// A fireball flies at the constant speed `FIREBALL_SPEED` whatever its aim:
/// for any fireball whose target differs from its origin, its travel in
/// `dt_ms` milliseconds has length `FIREBALL_SPEED * dt_ms` thousandths of a
/// unit, up to rounding.
pub proof fn fireball_speed_is_constant(f: Fireball, dt_ms: u32)
    requires
        f.origin != f.target,
    ensures
        close_to_length(f.travel(dt_ms).0, f.travel(dt_ms).1, FIREBALL_SPEED * dt_ms),
{
    lemma_along_length(
        f.target.x - f.origin.x,
        f.target.y - f.origin.y,
        FIREBALL_SPEED * dt_ms,
    );
}

} // verus!
