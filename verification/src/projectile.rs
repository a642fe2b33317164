//! A projectile: position, velocity, owner, and an active flag. Projectiles
//! fly in a straight line and deactivate once they leave a generous bounds
//! region that covers the whole tower climb.

use vstd::prelude::*;
use crate::UNIT;
use crate::geom::Vec2;
use crate::player::{AIM_LIMIT, POS_LIMIT, VEL_LIMIT};

verus! {

/// Projectile speed factor: an aim component at milli scale times this gives
/// the velocity component in milli-units per second (a unit aim vector flies
/// at 800 units per second).
pub const PROJECTILE_SPEED: i64 = 800;

/// Largest velocity component a projectile can carry (a unit aim vector at
/// milli scale times the speed factor).
pub const PROJECTILE_VEL_LIMIT: i64 = AIM_LIMIT * PROJECTILE_SPEED;

/// Radius of a projectile for hit testing, in micro-units.
pub const PROJECTILE_RADIUS: i64 = 10 * UNIT;

/// Generous despawn bounds, in micro-units: wide enough that projectiles
/// survive the whole vertical climb.
pub const BOUNDS_X_MIN: i64 = -500 * UNIT;

pub const BOUNDS_X_MAX: i64 = 2500 * UNIT;

pub const BOUNDS_Y_MIN: i64 = -10_000 * UNIT;

pub const BOUNDS_Y_MAX: i64 = 2000 * UNIT;

/// Bound on projectile positions: spawn points sit within the player
/// position bounds plus body offsets, and one frame of flight moves a
/// projectile a bounded distance further.
pub const PROJECTILE_POS_LIMIT: i64 = POS_LIMIT + 200_000_000_000_000;

#[derive(Clone, Copy, Debug)]
pub struct Projectile {
    pub pos: Vec2,
    pub vel: Vec2,
    pub active: bool,
    pub owner_id: usize,
}

/// Whether a position is still inside the despawn bounds.
pub open spec fn in_flight_bounds(pos: Vec2) -> bool {
    &&& BOUNDS_X_MIN <= pos.x <= BOUNDS_X_MAX
    &&& BOUNDS_Y_MIN <= pos.y <= BOUNDS_Y_MAX
}

impl Projectile {
    /// Well-formedness kept by every operation. The velocity bound is the
    /// world's machine limit, not the spawn speed: the engine flies any
    /// projectile within it.
    pub open spec fn wf(self) -> bool {
        &&& -PROJECTILE_POS_LIMIT <= self.pos.x <= PROJECTILE_POS_LIMIT
        &&& -PROJECTILE_POS_LIMIT <= self.pos.y <= PROJECTILE_POS_LIMIT
        &&& -VEL_LIMIT <= self.vel.x <= VEL_LIMIT
        &&& -VEL_LIMIT <= self.vel.y <= VEL_LIMIT
        &&& self.owner_id < 2
    }

    /// Well-formed with room to fly one more frame: holds of every freshly
    /// spawned projectile (spawn points sit near player positions) and of
    /// every projectile still inside the despawn bounds.
    pub open spec fn pre_flight(self) -> bool {
        &&& self.wf()
        &&& -PROJECTILE_POS_LIMIT + 100_000_000_000_000 <= self.pos.x <= PROJECTILE_POS_LIMIT
            - 100_000_000_000_000
        &&& -PROJECTILE_POS_LIMIT + 100_000_000_000_000 <= self.pos.y <= PROJECTILE_POS_LIMIT
            - 100_000_000_000_000
    }

    /// One frame of flight: the position advances by `velocity * dt`, and a
    /// projectile that leaves the despawn bounds is deactivated.
    pub open spec fn flight_step(self, dt: int) -> Projectile {
        let moved = Vec2 { x: (self.pos.x + self.vel.x * dt) as i64, y: (self.pos.y + self.vel.y
            * dt) as i64 };
        Projectile { pos: moved, active: self.active && in_flight_bounds(moved), ..self }
    }

    /// Constructor for the magic bolts.
    pub fn new(pos: Vec2, vel: Vec2, owner_id: usize) -> (p: Projectile)
        requires
            -PROJECTILE_POS_LIMIT + 100_000_000_000_000 <= pos.x <= PROJECTILE_POS_LIMIT
                - 100_000_000_000_000,
            -PROJECTILE_POS_LIMIT + 100_000_000_000_000 <= pos.y <= PROJECTILE_POS_LIMIT
                - 100_000_000_000_000,
            -VEL_LIMIT <= vel.x <= VEL_LIMIT,
            -VEL_LIMIT <= vel.y <= VEL_LIMIT,
            owner_id < 2,
        ensures
            p.wf(),
            p.pos == pos,
            p.vel == vel,
            p.active,
            p.owner_id == owner_id,
    {
        Projectile { pos, vel, active: true, owner_id }
    }

    /// Moves the bolt and deactivates it if it flies out of bounds.
    pub fn update(&mut self, dt: i64)
        requires
            old(self).pre_flight(),
            0 <= dt <= crate::MAX_FRAME_MS,
        ensures
            *final(self) == old(self).flight_step(dt as int),
            final(self).wf(),
    {
        proof {
            let vx = self.vel.x as int;
            let vy = self.vel.y as int;
            assert(-100_000_000_000_000 <= vx * dt <= 100_000_000_000_000) by (nonlinear_arith)
                requires
                    -VEL_LIMIT <= vx <= VEL_LIMIT,
                    0 <= dt <= crate::MAX_FRAME_MS,
                    VEL_LIMIT == 1_000_000_000_000,
                    crate::MAX_FRAME_MS == 100,
            ;
            assert(-100_000_000_000_000 <= vy * dt <= 100_000_000_000_000) by (nonlinear_arith)
                requires
                    -VEL_LIMIT <= vy <= VEL_LIMIT,
                    0 <= dt <= crate::MAX_FRAME_MS,
                    VEL_LIMIT == 1_000_000_000_000,
                    crate::MAX_FRAME_MS == 100,
            ;
        }
        self.pos.x = self.pos.x + self.vel.x * dt;
        self.pos.y = self.pos.y + self.vel.y * dt;

        // generous bounds so bolts don't despawn too early during the climb
        if self.pos.x < BOUNDS_X_MIN || self.pos.x > BOUNDS_X_MAX || self.pos.y < BOUNDS_Y_MIN
            || self.pos.y > BOUNDS_Y_MAX {
            self.active = false;
        }
    }
}

} // verus!
