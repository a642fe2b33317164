//! One combatant: kinematic state, hit points and damage cooldowns,
//! animation-state derivation and frame advance, and the geometry queries
//! (damage hitbox, projectile spawn point) the resolver and spawner use.

use vstd::prelude::*;
use crate::UNIT;
use crate::geom::{Rect, Vec2};

verus! {

/// Sprite width of a player, in micro-units.
pub const PLAYER_WIDTH: i64 = 64 * UNIT;

/// Sprite height of a player, in micro-units.
pub const PLAYER_HEIGHT: i64 = 128 * UNIT;

/// Damage hitbox width, in micro-units.
pub const HITBOX_WIDTH: i64 = 50 * UNIT;

/// Damage hitbox height, in micro-units.
pub const HITBOX_HEIGHT: i64 = 80 * UNIT;

/// Horizontal offset from the position to the hitbox's left edge:
/// half the hitbox width plus a fixed 10-unit shift.
pub const HITBOX_OFFSET_X: i64 = 35 * UNIT;

/// Bound on position coordinates kept by every simulation step; far outside
/// anything reachable in play, it only keeps the arithmetic within `i64`.
pub const POS_LIMIT: i64 = 1_000_000_000_000_000;

/// Bound on velocity components (milli-units per second); integration caps
/// speeds here, a terminal velocity far beyond anything reachable in play.
pub const VEL_LIMIT: i64 = 1_000_000_000_000;

/// Aim vectors are unit vectors at milli scale: each component is at most
/// this in magnitude.
pub const AIM_LIMIT: i64 = 1000;

/// Largest animation frame count the engine accepts from its configuration.
pub const MAX_ANIM_FRAMES: usize = 10_000;

/// Milliseconds a frame of a non-shoot animation is held.
pub const FRAME_MS: i64 = 100;

/// Milliseconds a frame of the shoot animation is held: the attack plays
/// slower than movement animations.
pub const SHOOT_FRAME_MS: i64 = 150;

/// Invincibility window after a projectile hit, in milliseconds.
pub const HIT_IFRAMES_MS: i64 = 1500;

/// Invincibility window after hazard contact, in milliseconds.
pub const HAZARD_IFRAMES_MS: i64 = 1000;

/// Cooldown between attacks, in milliseconds.
pub const SHOOT_COOLDOWN_MS: i64 = 800;

/// Starting and maximum hit points.
pub const MAX_HP: i32 = 3;

/// Horizontal speed factor: the move axis at milli scale times this gives
/// the horizontal velocity in milli-units per second (full deflection runs
/// at 350 units per second).
pub const RUN_SPEED: i64 = 350;

/// Vertical velocity set on a jump, in milli-units per second.
pub const JUMP_VELOCITY: i64 = -1_200_000;

#[derive(Clone, Copy, Debug, PartialEq, Eq, Structural)]
pub enum AnimationState {
    Idle,
    Run,
    Jump,
    Shoot,
    Hurt,
}

/// One frame of gathered input for one player: a horizontal move axis at
/// milli scale (keys map to full deflection), edge-triggered jump and shoot,
/// and optionally a fresh aim direction (a unit vector at milli scale).
#[derive(Clone, Copy, Debug)]
pub struct PlayerIntent {
    pub move_axis: i64,
    pub jump_pressed: bool,
    pub shoot_pressed: bool,
    pub aim: Option<Vec2>,
}

impl PlayerIntent {
    pub open spec fn wf(self) -> bool {
        &&& -AIM_LIMIT <= self.move_axis <= AIM_LIMIT
        &&& match self.aim {
            Some(a) => -AIM_LIMIT <= a.x <= AIM_LIMIT && -AIM_LIMIT <= a.y <= AIM_LIMIT,
            None => true,
        }
    }

    /// An idle frame: no movement, no presses, no aim change.
    pub fn none() -> (intent: PlayerIntent)
        ensures
            intent.wf(),
            intent.move_axis == 0,
            !intent.jump_pressed,
            !intent.shoot_pressed,
            intent.aim is None,
    {
        PlayerIntent { move_axis: 0, jump_pressed: false, shoot_pressed: false, aim: None }
    }
}

#[derive(Clone, Copy, Debug)]
pub struct Player {
    pub pos: Vec2,
    pub vel: Vec2,
    pub grounded: bool,
    pub input_id: usize,
    pub aim: Vec2,
    pub shoot_timer: i64,
    pub shooting: bool,
    pub facing_left: bool,

    // animation state tracking
    pub anim_state: AnimationState,
    pub anim_frame: usize,
    pub anim_timer: i64,
    pub width: i64,
    pub height: i64,
    pub attack_fired: bool,
    pub hit: bool,

    // health and damage cooldowns
    pub hp: i32,
    pub i_frame_timer: i64,
}

impl Player {
    /// Well-formedness kept by every operation: hit points stay in
    /// `[0, MAX_HP]`, timers never go negative, and all kinematic values stay
    /// inside the fixed world bounds.
    pub open spec fn wf(self) -> bool {
        &&& 0 <= self.hp <= MAX_HP
        &&& 0 <= self.i_frame_timer <= HIT_IFRAMES_MS
        &&& 0 <= self.shoot_timer <= SHOOT_COOLDOWN_MS
        &&& 0 <= self.anim_timer <= SHOOT_FRAME_MS + crate::MAX_FRAME_MS
        &&& self.anim_frame <= MAX_ANIM_FRAMES
        &&& self.input_id < 2
        &&& -POS_LIMIT <= self.pos.x <= POS_LIMIT
        &&& -POS_LIMIT <= self.pos.y <= POS_LIMIT
        &&& -VEL_LIMIT <= self.vel.x <= VEL_LIMIT
        &&& -VEL_LIMIT <= self.vel.y <= VEL_LIMIT
        &&& -AIM_LIMIT <= self.aim.x <= AIM_LIMIT
        &&& -AIM_LIMIT <= self.aim.y <= AIM_LIMIT
        &&& self.width == PLAYER_WIDTH
        &&& self.height == PLAYER_HEIGHT
    }

    /// The state of a freshly spawned player: full health, idle, aiming
    /// along the positive horizontal axis.
    pub open spec fn spec_new_player(id: usize, x: i64, y: i64) -> Player {
        Player {
            pos: Vec2 { x, y },
            vel: Vec2 { x: 0, y: 0 },
            grounded: false,
            input_id: id,
            aim: Vec2 { x: AIM_LIMIT, y: 0 },
            shoot_timer: 0,
            shooting: false,
            facing_left: false,
            anim_state: AnimationState::Idle,
            anim_frame: 0,
            anim_timer: 0,
            width: PLAYER_WIDTH,
            height: PLAYER_HEIGHT,
            attack_fired: false,
            hit: false,
            hp: MAX_HP,
            i_frame_timer: 0,
        }
    }

    pub fn new(id: usize, x: i64, y: i64) -> (p: Player)
        requires
            id < 2,
            -POS_LIMIT <= x <= POS_LIMIT,
            -POS_LIMIT <= y <= POS_LIMIT,
        ensures
            p == Player::spec_new_player(id, x, y),
            p.wf(),
            p.pos.x == x,
            p.pos.y == y,
            p.vel.x == 0 && p.vel.y == 0,
            !p.grounded,
            p.input_id == id,
            p.aim.x == AIM_LIMIT && p.aim.y == 0,
            p.shoot_timer == 0,
            !p.shooting,
            !p.facing_left,
            p.anim_state is Idle,
            p.anim_frame == 0,
            p.anim_timer == 0,
            !p.attack_fired,
            !p.hit,
            p.hp == MAX_HP,
            p.i_frame_timer == 0,
    {
        Player {
            pos: Vec2 { x, y },
            vel: Vec2 { x: 0, y: 0 },
            grounded: false,
            input_id: id,
            aim: Vec2 { x: AIM_LIMIT, y: 0 },
            shoot_timer: 0,
            shooting: false,
            facing_left: false,

            // starting animation values
            anim_state: AnimationState::Idle,
            anim_frame: 0,
            anim_timer: 0,
            width: PLAYER_WIDTH,
            height: PLAYER_HEIGHT,
            attack_fired: false,
            hit: false,

            // three hits and you're out
            hp: MAX_HP,
            i_frame_timer: 0,
        }
    }

    /// Still inside the post-hit invincibility window.
    pub open spec fn spec_is_invincible(self) -> bool {
        self.i_frame_timer > 0
    }

    pub fn is_invincible(&self) -> (inv: bool)
        ensures
            inv == self.spec_is_invincible(),
    {
        self.i_frame_timer > 0
    }

    /// The damage hitbox: a fixed-size rectangle hanging from the position
    /// (the position marks the feet).
    pub open spec fn spec_rect(self) -> Rect
        recommends
            self.wf(),
    {
        Rect {
            x: (self.pos.x - HITBOX_OFFSET_X) as i64,
            y: (self.pos.y - HITBOX_HEIGHT) as i64,
            width: HITBOX_WIDTH,
            height: HITBOX_HEIGHT,
        }
    }

    /// Custom hitbox dimensions.
    pub fn rect(&self) -> (r: Rect)
        requires
            self.wf(),
        ensures
            r == self.spec_rect(),
            r.x == self.pos.x - HITBOX_OFFSET_X,
            r.y == self.pos.y - HITBOX_HEIGHT,
            r.width == HITBOX_WIDTH,
            r.height == HITBOX_HEIGHT,
    {
        Rect {
            x: self.pos.x - HITBOX_OFFSET_X,
            y: self.pos.y - HITBOX_HEIGHT,
            width: HITBOX_WIDTH,
            height: HITBOX_HEIGHT,
        }
    }

    /// The fixed priority table for animation-state derivation: hit, then
    /// shooting, then airborne, then running, then idle.
    pub open spec fn derived_anim_state(self) -> AnimationState {
        if self.hit {
            AnimationState::Hurt
        } else if self.shooting {
            AnimationState::Shoot
        } else if !self.grounded {
            AnimationState::Jump
        } else if self.vel.x != 0 {
            AnimationState::Run
        } else {
            AnimationState::Idle
        }
    }

    /// Logic tree for picking the right sprite set.
    pub fn determine_anim_state(&self) -> (state: AnimationState)
        ensures
            state == self.derived_anim_state(),
    {
        if self.hit {
            return AnimationState::Hurt;
        }
        if self.shooting {
            return AnimationState::Shoot;
        }
        if !self.grounded {
            return AnimationState::Jump;
        }
        if self.vel.x != 0 {
            return AnimationState::Run;
        }
        AnimationState::Idle
    }

    /// Where a projectile spawns, offset from the position by facing
    /// direction and body proportions.
    pub open spec fn spec_staff_position(self) -> Vec2
        recommends
            self.wf(),
    {
        let dx = self.width * 45 / 100;
        Vec2 {
            x: (if self.facing_left {
                self.pos.x - dx
            } else {
                self.pos.x + dx
            }) as i64,
            y: (self.pos.y - self.height * 65 / 100) as i64,
        }
    }

    /// The player after one frame of gathered input: the shoot cooldown
    /// ticks down (never below zero), a nonzero move axis sets the facing,
    /// a jump while grounded sets the vertical impulse, a supplied aim
    /// replaces the old one, the horizontal velocity follows the move axis,
    /// and a shoot press with the cooldown elapsed starts an attack and
    /// rearms the cooldown.
    pub open spec fn intent_step(self, intent: PlayerIntent, dt: int) -> Player {
        let cooled = if self.shoot_timer - dt >= 0 {
            self.shoot_timer - dt
        } else {
            0
        };
        let jumping = self.grounded && intent.jump_pressed;
        let shoots = intent.shoot_pressed && cooled == 0;
        Player {
            vel: Vec2 {
                x: (intent.move_axis * RUN_SPEED) as i64,
                y: if jumping {
                    JUMP_VELOCITY
                } else {
                    self.vel.y
                },
            },
            grounded: if jumping {
                false
            } else {
                self.grounded
            },
            aim: match intent.aim {
                Some(a) => a,
                None => self.aim,
            },
            facing_left: if intent.move_axis != 0 {
                intent.move_axis < 0
            } else {
                self.facing_left
            },
            shoot_timer: (if shoots {
                SHOOT_COOLDOWN_MS as int
            } else {
                cooled
            }) as i64,
            shooting: if shoots {
                true
            } else {
                self.shooting
            },
            ..self
        }
    }

    /// Apply one frame of gathered input.
    pub fn apply_intent(&mut self, intent: &PlayerIntent, dt: i64)
        requires
            old(self).wf(),
            intent.wf(),
            0 <= dt <= crate::MAX_FRAME_MS,
        ensures
            *final(self) == old(self).intent_step(*intent, dt as int),
            final(self).wf(),
    {
        if self.shoot_timer > 0 {
            if self.shoot_timer >= dt {
                self.shoot_timer = self.shoot_timer - dt;
            } else {
                self.shoot_timer = 0;
            }
        }
        if intent.move_axis != 0 {
            self.facing_left = intent.move_axis < 0;
        }
        if self.grounded && intent.jump_pressed {
            self.vel.y = JUMP_VELOCITY;
            self.grounded = false;
        }
        if let Some(a) = intent.aim {
            self.aim = a;
        }
        self.vel.x = intent.move_axis * RUN_SPEED;
        if intent.shoot_pressed && self.shoot_timer == 0 {
            self.shoot_timer = SHOOT_COOLDOWN_MS;
            self.shooting = true;
        }
    }

    /// The player after the invincibility window ticks down by `dt`: a
    /// monotonic decrement clamped at zero — the timer never goes negative.
    pub open spec fn iframe_tick(self, dt: int) -> Player {
        Player {
            i_frame_timer: (if self.i_frame_timer - dt >= 0 {
                self.i_frame_timer - dt
            } else {
                0
            }) as i64,
            ..self
        }
    }

    /// Tick the invincibility window down, never below zero.
    pub fn tick_invincibility(&mut self, dt: i64)
        requires
            old(self).wf(),
            0 <= dt <= crate::MAX_FRAME_MS,
        ensures
            *final(self) == old(self).iframe_tick(dt as int),
            final(self).wf(),
            final(self).i_frame_timer <= old(self).i_frame_timer,
            final(self).i_frame_timer >= 0,
    {
        if self.i_frame_timer > 0 {
            if self.i_frame_timer >= dt {
                self.i_frame_timer = self.i_frame_timer - dt;
            } else {
                self.i_frame_timer = 0;
            }
        }
    }

    /// Milliseconds each frame of `state` is held.
    pub open spec fn frame_period(state: AnimationState) -> int {
        if state is Shoot {
            SHOOT_FRAME_MS as int
        } else {
            FRAME_MS as int
        }
    }

    /// Re-derive the animation state; on a transition the frame index and
    /// frame timer reset, and entering `Shoot` re-arms the attack latch.
    pub open spec fn anim_transition(self) -> Player {
        let state = self.derived_anim_state();
        if state == self.anim_state {
            self
        } else {
            Player {
                anim_state: state,
                anim_frame: 0,
                anim_timer: 0,
                attack_fired: if state is Shoot {
                    false
                } else {
                    self.attack_fired
                },
                ..self
            }
        }
    }

    pub fn apply_anim_transition(&mut self)
        ensures
            *final(self) == old(self).anim_transition(),
    {
        let new_state = self.determine_anim_state();
        if new_state != self.anim_state {
            self.anim_state = new_state;
            self.anim_frame = 0;
            self.anim_timer = 0;
            if new_state == AnimationState::Shoot {
                self.attack_fired = false;
            }
        }
    }

    /// Whether advancing the animation by `dt` fires the attack: the shoot
    /// animation sits on its release frame (the last one) with the latch
    /// still clear, and the frame timer rolls over.
    pub open spec fn anim_fires(self, count: int, dt: int) -> bool {
        &&& self.anim_timer + dt > Self::frame_period(self.anim_state)
        &&& self.anim_state is Shoot
        &&& self.anim_frame == count - 1
        &&& !self.attack_fired
    }

    /// The animation state after `dt` elapsed with `count` frames configured
    /// for the active animation. Run/Idle wrap, Jump holds its last frame,
    /// Hurt holds its last frame then clears the hit flag, Shoot latches the
    /// attack on its release frame and rewinds once played through.
    pub open spec fn anim_step(self, count: int, dt: int) -> Player
        recommends
            1 <= count,
    {
        if self.anim_timer + dt <= Self::frame_period(self.anim_state) {
            Player { anim_timer: (self.anim_timer + dt) as i64, ..self }
        } else {
            match self.anim_state {
                AnimationState::Run | AnimationState::Idle => Player {
                    anim_timer: 0,
                    anim_frame: ((self.anim_frame + 1) % count) as usize,
                    ..self
                },
                AnimationState::Jump => Player {
                    anim_timer: 0,
                    anim_frame: if self.anim_frame + 1 < count {
                        (self.anim_frame + 1) as usize
                    } else {
                        self.anim_frame
                    },
                    ..self
                },
                AnimationState::Hurt => if self.anim_frame + 1 < count {
                    Player { anim_timer: 0, anim_frame: (self.anim_frame + 1) as usize, ..self }
                } else {
                    Player { anim_timer: 0, hit: false, ..self }
                },
                AnimationState::Shoot => {
                    let fired = self.attack_fired || self.anim_frame == count - 1;
                    if self.anim_frame + 1 < count {
                        Player {
                            anim_timer: 0,
                            anim_frame: (self.anim_frame + 1) as usize,
                            attack_fired: fired,
                            ..self
                        }
                    } else {
                        Player {
                            anim_timer: 0,
                            anim_frame: 0,
                            shooting: false,
                            attack_fired: fired,
                            ..self
                        }
                    }
                },
            }
        }
    }

    /// Advance the frame timer and, past the per-state frame period, the
    /// frame index. Returns whether the attack fires on this advance; the
    /// caller spawns the projectile. The frame count comes from the loaded
    /// sprite configuration, never from a constant.
    pub fn advance_animation(&mut self, frame_count: usize, dt: i64) -> (fired: bool)
        requires
            old(self).wf(),
            1 <= frame_count <= MAX_ANIM_FRAMES,
            0 <= dt <= crate::MAX_FRAME_MS,
        ensures
            *final(self) == old(self).anim_step(frame_count as int, dt as int),
            fired == old(self).anim_fires(frame_count as int, dt as int),
            final(self).wf(),
    {
        self.anim_timer = self.anim_timer + dt;
        let period: i64 = if matches!(self.anim_state, AnimationState::Shoot) {
            SHOOT_FRAME_MS
        } else {
            FRAME_MS
        };
        if self.anim_timer > period {
            self.anim_timer = 0;
            match self.anim_state {
                AnimationState::Run | AnimationState::Idle => {
                    self.anim_frame = (self.anim_frame + 1) % frame_count;
                },
                AnimationState::Jump => {
                    if self.anim_frame + 1 < frame_count {
                        self.anim_frame = self.anim_frame + 1;
                    }
                },
                AnimationState::Hurt => {
                    if self.anim_frame + 1 < frame_count {
                        self.anim_frame = self.anim_frame + 1;
                    } else {
                        self.hit = false;
                    }
                },
                AnimationState::Shoot => {
                    // fire the projectile at the release frame, exactly once
                    // per attack cycle
                    let mut fired_now = false;
                    if self.anim_frame == frame_count - 1 && !self.attack_fired {
                        fired_now = true;
                        self.attack_fired = true;
                    }
                    if self.anim_frame + 1 < frame_count {
                        self.anim_frame = self.anim_frame + 1;
                    } else {
                        self.anim_frame = 0;
                        self.shooting = false;
                    }
                    return fired_now;
                },
            }
        }
        false
    }

    /// Figures out where the projectile should spawn relative to the player.
    pub fn staff_position(&self) -> (v: Vec2)
        requires
            self.wf(),
        ensures
            v == self.spec_staff_position(),
    {
        let dx: i64 = self.width * 45 / 100;
        if self.facing_left {
            Vec2 { x: self.pos.x - dx, y: self.pos.y - self.height * 65 / 100 }
        } else {
            Vec2 { x: self.pos.x + dx, y: self.pos.y - self.height * 65 / 100 }
        }
    }
}

} // verus!
