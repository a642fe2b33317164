//! The match scene: per-frame simulation of the two players, their
//! projectiles, the procedurally laid-out platform tower, and the scrolling
//! camera with its rising hazard line.
//!
//! The per-frame order is fixed: world scroll and platform recycling, then
//! animation advance (which may spawn projectiles), then projectile flight
//! and culling, then projectile hit resolution, then player physics with
//! platform landing and hazard contact, and finally the win-condition check.

use vstd::prelude::*;
use crate::{MAX_FRAME_MS, UNIT};
use crate::game_data::{AnimFrameCounts, GameData, SCORE_LIMIT, WIN_SCORE, ZOOM_LIMIT};
use crate::geom::{Rect, Vec2};
use crate::player::{Player, PlayerIntent, POS_LIMIT, VEL_LIMIT};
use crate::projectile::{Projectile, PROJECTILE_SPEED};
use crate::scenes::{SceneId, SceneSwitch};

verus! {

/// Downward acceleration, in milli-units per second per second.
pub const GRAVITY: i64 = 2_400_000;

/// Camera target at match start, in micro-units.
pub const CAMERA_START_X: i64 = 960 * UNIT;

pub const CAMERA_START_Y: i64 = 540 * UNIT;

/// Scroll speed at match start and its cap, in milli-units per second.
pub const SCROLL_START: i64 = 60_000;

pub const SCROLL_CAP: i64 = 250_000;

/// Scroll speed grows by 9/100 of itself per second; with speed at milli
/// scale and time in ms the growth step is `speed * 9 * dt / 100_000`.
pub const SCROLL_GROWTH_NUM: i64 = 9;

pub const SCROLL_GROWTH_DEN: i64 = 100_000;

/// The most the camera can move in one frame, in micro-units.
pub const MAX_SCROLL_STEP: i64 = 25_000_000;

/// Hazard line at match start, in micro-units.
pub const LAVA_START: i64 = 1100 * UNIT;

/// The hazard line tracks this far below the camera target.
pub const LAVA_OFFSET: i64 = 480 * UNIT;

/// Camera height at which the rooftop duel begins.
pub const ROOFTOP_Y: i64 = -8500 * UNIT;

/// Lowest value the hazard line can take: it is set from the camera before
/// the camera is clamped to the rooftop, so it can run at most one scroll
/// step below `ROOFTOP_Y + LAVA_OFFSET`.
pub const LAVA_MIN: i64 = ROOFTOP_Y + LAVA_OFFSET - MAX_SCROLL_STEP;

/// Platform layout: rows of columns descending from the top, in micro-units.
pub const PLATFORM_ROWS: usize = 45;

pub const PLATFORM_COLS: usize = 3;

pub const PLATFORM_COUNT: usize = 135;

pub const GEN_TOP_Y: i64 = 1000 * UNIT;

pub const ROW_SPACING: i64 = 160 * UNIT;

pub const PLATFORM_HEIGHT: i64 = 40 * UNIT;

/// Recycled platforms are translated up by this tower height.
pub const TOWER_HEIGHT: i64 = 7200 * UNIT;

/// A platform this far below the hazard line is recycled.
pub const RECYCLE_MARGIN: i64 = 100 * UNIT;

/// Lowest platform position: a platform is recycled once it falls below the
/// hazard line, and the hazard line itself is bounded below.
pub const PLATFORM_Y_MIN: i64 = LAVA_MIN + RECYCLE_MARGIN - TOWER_HEIGHT;

/// Players respawn this far above the camera target.
pub const RESPAWN_HEIGHT: i64 = 400 * UNIT;

/// A player this far past the hazard line is lost outright.
pub const HAZARD_DEPTH: i64 = 200 * UNIT;

/// Upward impulse knocking a player out of the hazard, in milli-units per
/// second.
pub const HAZARD_KNOCKBACK: i64 = -650_000;

/// Players are kept this far inside the camera-relative view edges.
pub const EDGE_BUFFER: i64 = 64 * UNIT;

/// A falling player within this band below a platform top lands on it.
pub const LAND_BAND: i64 = 30 * UNIT;

/// Half the horizontal extent used for platform landing.
pub const LAND_HALF_WIDTH: i64 = 23 * UNIT;

/// The single static platform of the rooftop duel, in micro-units.
pub const ROOF_PLATFORM_X: i64 = -5000 * UNIT;

pub const ROOF_PLATFORM_DROP: i64 = 400 * UNIT;

pub const ROOF_PLATFORM_WIDTH: i64 = 10_000 * UNIT;

pub const ROOF_PLATFORM_HEIGHT: i64 = 100 * UNIT;

pub struct GameScene {
    pub players: Vec<Player>,
    pub gravity: i64,
    pub projectiles: Vec<Projectile>,
    pub platforms: Vec<Rect>,
    pub camera_target: Vec2,
    pub camera_zoom: i64,
    pub is_on_rooftop: bool,
    pub rooftop_y: i64,
    pub scroll_speed: i64,
    pub lava_y: i64,
}

/// `v` if it lies in `[-POS_LIMIT, POS_LIMIT]`, else the nearer bound.
pub open spec fn clamp_pos(v: int) -> int {
    if v < -POS_LIMIT {
        -POS_LIMIT as int
    } else if v > POS_LIMIT {
        POS_LIMIT as int
    } else {
        v
    }
}

/// The absolute value.
pub open spec fn abs_int(a: int) -> int {
    if a < 0 {
        -a
    } else {
        a
    }
}

/// The platform generated for row `i`, column `j`: a pseudo-seed linear in
/// `(i, j)` fixes the width and horizontal position by modulo arithmetic,
/// and rows descend by a fixed spacing — the layout is a pure function of
/// the indices.
pub open spec fn gen_platform(i: int, j: int) -> Rect
    recommends
        0 <= i < PLATFORM_ROWS,
        0 <= j < PLATFORM_COLS,
{
    let seed = i * 13 + j * 31;
    let width_units = 200 + seed % 150;
    let x_units = (seed * 617) % 1500 + 100;
    Rect {
        x: (x_units * UNIT) as i64,
        y: (GEN_TOP_Y - i * ROW_SPACING) as i64,
        width: (width_units * UNIT) as i64,
        height: PLATFORM_HEIGHT,
    }
}

/// The single wide platform installed for the rooftop duel.
pub open spec fn roof_platform() -> Rect {
    Rect {
        x: ROOF_PLATFORM_X,
        y: (ROOFTOP_Y + ROOF_PLATFORM_DROP) as i64,
        width: ROOF_PLATFORM_WIDTH,
        height: ROOF_PLATFORM_HEIGHT,
    }
}

/// A procedural (pre-rooftop) platform: whole-unit coordinates in the ranges
/// the generation and recycling formulas produce.
pub open spec fn wf_platform(p: Rect) -> bool {
    &&& p.x % UNIT == 0
    &&& p.y % UNIT == 0
    &&& p.width % UNIT == 0
    &&& 100 * UNIT <= p.x <= 1599 * UNIT
    &&& PLATFORM_Y_MIN <= p.y <= GEN_TOP_Y
    &&& 200 * UNIT <= p.width <= 349 * UNIT
    &&& p.height == PLATFORM_HEIGHT
}

/// A platform scrolled below `bottom` is translated up one tower height and
/// re-seeded from its own translated position; all others are unchanged.
pub open spec fn recycle_platform(p: Rect, bottom: int) -> Rect {
    if p.y > bottom {
        let y2 = p.y - TOWER_HEIGHT;
        let seed = (abs_int(y2) / (UNIT as int) + (p.x as int) / (UNIT as int)) * 17;
        Rect {
            x: (((seed % 1400) + 100) * UNIT) as i64,
            y: y2 as i64,
            width: (((seed % 150) + 200) * UNIT) as i64,
            height: p.height,
        }
    } else {
        p
    }
}

/// The scroll speed after `dt` ms of compounding growth, clamped to the cap.
pub open spec fn scroll_speed_after(speed: int, dt: int) -> int {
    let grown = speed + speed * SCROLL_GROWTH_NUM * dt / (SCROLL_GROWTH_DEN as int);
    if grown > SCROLL_CAP {
        SCROLL_CAP as int
    } else {
        grown
    }
}

/// Half the camera-relative view width in micro-units is
/// `screen_width * VIEW_SCALE / zoom_factor`: the screen width in pixels
/// over the zoom (at milli scale) and over two, scaled to micro-units.
pub const VIEW_SCALE: i64 = 500_000_000;

/// One Euler integration step: gravity pulls the vertical velocity down
/// (capped at the terminal bound), then the position advances by
/// `velocity * dt`, clamped into the world's position bounds.
pub open spec fn integrate_step(pl: Player, dt: int) -> Player {
    let vy = if pl.vel.y + (GRAVITY as int) / 1000 * dt > VEL_LIMIT {
        VEL_LIMIT as int
    } else {
        pl.vel.y + (GRAVITY as int) / 1000 * dt
    };
    Player {
        vel: Vec2 { x: pl.vel.x, y: vy as i64 },
        pos: Vec2 {
            x: clamp_pos(pl.pos.x + pl.vel.x * dt) as i64,
            y: clamp_pos(pl.pos.y + vy * dt) as i64,
        },
        ..pl
    }
}

/// Horizontal containment: the player is pushed back inside the
/// camera-relative view edges (minus a buffer), zeroing the horizontal
/// velocity on contact with either edge.
pub open spec fn clamp_step(pl: Player, left: int, right: int) -> Player {
    let x1 = if pl.pos.x < left + EDGE_BUFFER {
        left + EDGE_BUFFER
    } else {
        pl.pos.x as int
    };
    let vx1 = if pl.pos.x < left + EDGE_BUFFER {
        0
    } else {
        pl.vel.x as int
    };
    let x2 = if x1 > right - EDGE_BUFFER {
        right - EDGE_BUFFER
    } else {
        x1
    };
    let vx2 = if x1 > right - EDGE_BUFFER {
        0
    } else {
        vx1
    };
    Player {
        pos: Vec2 { x: x2 as i64, y: pl.pos.y },
        vel: Vec2 { x: vx2 as i64, y: pl.vel.y },
        ..pl
    }
}

/// A player lands on a platform only while falling, only within a thin band
/// below the platform's top surface, and only when the horizontal extents
/// overlap.
pub open spec fn lands(pl: Player, plat: Rect) -> bool {
    &&& pl.vel.y > 0
    &&& plat.y <= pl.pos.y <= plat.y + LAND_BAND
    &&& pl.pos.x + LAND_HALF_WIDTH > plat.x
    &&& pl.pos.x - LAND_HALF_WIDTH < plat.x + plat.width
}

/// On landing the vertical position snaps to the platform top, the vertical
/// velocity zeroes, and the player is grounded.
pub open spec fn landed(pl: Player, plat: Rect) -> Player {
    Player {
        pos: Vec2 { x: pl.pos.x, y: plat.y },
        vel: Vec2 { x: pl.vel.x, y: 0 },
        grounded: true,
        ..pl
    }
}

/// The platform scan from index `i` on: each platform in order may catch
/// the player. Once one does, the zeroed vertical velocity keeps every
/// later platform from matching, so the first match in order decides.
pub open spec fn land_scan(pl: Player, plats: Seq<Rect>, i: int) -> Player
    decreases plats.len() - i,
{
    if i < 0 || i >= plats.len() {
        pl
    } else if lands(pl, plats[i]) {
        land_scan(landed(pl, plats[i]), plats, i + 1)
    } else {
        land_scan(pl, plats, i + 1)
    }
}

/// Whether hazard contact costs the round: the player sits past the hazard
/// line and either the contact damage (applied only when vulnerable) brings
/// the hit points to zero, or the player has sunk in too deep.
pub open spec fn hazard_kills(pl: Player, lava: int) -> bool {
    let hp1 = if !pl.spec_is_invincible() {
        pl.hp - 1
    } else {
        pl.hp as int
    };
    pl.pos.y > lava && (hp1 <= 0 || pl.pos.y > lava + HAZARD_DEPTH)
}

/// Hazard contact: past the hazard line a vulnerable player takes one point
/// of damage, a short invincibility window, and an upward knockback; at
/// zero hit points, or too deep in, the player fully respawns above the
/// camera (the opponent's point is accounted separately).
pub open spec fn hazard_step(pl: Player, lava: int, cam: Vec2) -> Player {
    if pl.pos.y <= lava {
        pl
    } else {
        let dmg = if !pl.spec_is_invincible() {
            Player {
                hp: (pl.hp - 1) as i32,
                i_frame_timer: crate::player::HAZARD_IFRAMES_MS,
                vel: Vec2 { x: pl.vel.x, y: HAZARD_KNOCKBACK },
                hit: true,
                ..pl
            }
        } else {
            pl
        };
        if dmg.hp <= 0 || dmg.pos.y > lava + HAZARD_DEPTH {
            Player { hp: crate::player::MAX_HP, pos: respawn_pos(cam), vel: Vec2 { x: 0, y: 0 }, ..dmg }
        } else {
            dmg
        }
    }
}

/// Where a defeated player respawns: a fixed offset above the camera target.
pub open spec fn respawn_pos(cam: Vec2) -> Vec2 {
    Vec2 { x: cam.x, y: (cam.y - RESPAWN_HEIGHT) as i64 }
}

/// One point of projectile damage: hit points drop by one, the invincibility
/// window and hit flag are set; at zero hit points the opponent's kill is
/// complete — full health back, respawn above the camera, velocity zeroed.
pub open spec fn projectile_damage(pl: Player, cam: Vec2) -> Player {
    let damaged = Player {
        hp: (pl.hp - 1) as i32,
        i_frame_timer: crate::player::HIT_IFRAMES_MS,
        hit: true,
        ..pl
    };
    if pl.hp - 1 <= 0 {
        Player { hp: crate::player::MAX_HP, pos: respawn_pos(cam), vel: Vec2 { x: 0, y: 0 }, ..damaged }
    } else {
        damaged
    }
}

/// Whether `bolt` touches `pl`, ignoring invincibility: it is live, owned by
/// the other player, and its circle meets the hitbox.
pub open spec fn hit_cond(bolt: Projectile, pl: Player) -> bool {
    &&& bolt.active
    &&& bolt.owner_id != pl.input_id
    &&& crate::utils::circle_rec_hit(
        bolt.pos.x as int,
        bolt.pos.y as int,
        crate::projectile::PROJECTILE_RADIUS as int,
        pl.spec_rect(),
    )
}

/// Whether any of the first `n` projectiles touches `pl`.
pub open spec fn hit_among(projs: Seq<Projectile>, n: int, pl: Player) -> bool {
    exists|j: int| 0 <= j < n && hit_cond(#[trigger] projs[j], pl)
}

/// Extending the scanned prefix by one projectile adds exactly its own hit.
proof fn lemma_hit_among_step(projs: Seq<Projectile>, n: int, pl: Player)
    requires
        0 <= n < projs.len(),
    ensures
        hit_among(projs, n + 1, pl) == (hit_among(projs, n, pl) || hit_cond(projs[n], pl)),
{
    if hit_cond(projs[n], pl) {
        assert(hit_among(projs, n + 1, pl));
    }
    if hit_among(projs, n, pl) {
        let j = choose|j: int| 0 <= j < n && hit_cond(#[trigger] projs[j], pl);
        assert(hit_cond(projs[j], pl));
    }
    if hit_among(projs, n + 1, pl) && !hit_among(projs, n, pl) {
        let j = choose|j: int| 0 <= j < n + 1 && hit_cond(#[trigger] projs[j], pl);
        assert(j == n);
    }
}

/// Whether bolt `j` of the flown set strikes `pl` during the hit pass: it
/// touches a vulnerable `pl`, and no earlier bolt already struck them (a
/// hit grants invincibility for the rest of the pass).
pub open spec fn bolt_strikes(flown: Seq<Projectile>, j: int, pl: Player) -> bool {
    &&& hit_cond(flown[j], pl)
    &&& !pl.spec_is_invincible()
    &&& !hit_among(flown, j, pl)
}

/// Whether bolt `j` is spent on either player this frame.
pub open spec fn bolt_spent(flown: Seq<Projectile>, j: int, a0: Player, a1: Player) -> bool {
    bolt_strikes(flown, j, a0) || bolt_strikes(flown, j, a1)
}

/// The projectiles of the first `n` of the flown set that survive the
/// frame, in order: the live bolts minus those spent on a hit.
pub open spec fn surviving_upto(
    flown: Seq<Projectile>,
    a0: Player,
    a1: Player,
    n: int,
) -> Seq<Projectile>
    decreases n,
{
    if n <= 0 || n > flown.len() {
        Seq::empty()
    } else {
        let rest = surviving_upto(flown, a0, a1, n - 1);
        if flown[n - 1].active && !bolt_spent(flown, n - 1, a0, a1) {
            rest.push(flown[n - 1])
        } else {
            rest
        }
    }
}

/// When no platform of the scan catches the player, the scan returns the
/// player unchanged.
proof fn lemma_land_scan_none(pl: Player, plats: Seq<Rect>, i: int)
    requires
        forall|j: int| i <= j < plats.len() ==> !lands(pl, #[trigger] plats[j]),
    ensures
        land_scan(pl, plats, i) == pl,
    decreases plats.len() - i,
{
    if 0 <= i < plats.len() {
        lemma_land_scan_none(pl, plats, i + 1);
    }
}

/// A pointwise-flagged copy of the flown set, filtered down to its live
/// bolts, is exactly the surviving set.
proof fn lemma_filter_flagged(
    flown: Seq<Projectile>,
    a0: Player,
    a1: Player,
    out: Seq<Projectile>,
    n: int,
)
    requires
        out.len() == flown.len(),
        0 <= n <= flown.len(),
        forall|i: int|
            0 <= i < flown.len() ==> out[i] == (Projectile {
                active: flown[i].active && !bolt_spent(flown, i, a0, a1),
                ..flown[i]
            }),
    ensures
        out.subrange(0, n).filter(|p: Projectile| p.active) =~= surviving_upto(flown, a0, a1, n),
    decreases n,
{
    reveal_with_fuel(Seq::filter, 2);
    if n > 0 {
        lemma_filter_flagged(flown, a0, a1, out, n - 1);
        let sub = out.subrange(0, n);
        assert(sub.drop_last() =~= out.subrange(0, n - 1));
        assert(sub.last() == out[n - 1]);
        if flown[n - 1].active && !bolt_spent(flown, n - 1, a0, a1) {
            assert(out[n - 1] == flown[n - 1]);
        }
    } else {
        assert(out.subrange(0, 0) =~= Seq::<Projectile>::empty());
    }
}

/// The first frame of a fresh match moves no score: the players spawn
/// airborne and idle, so no attack can fire, and they hang far above the
/// hazard line, so no hazard kill can happen either.
pub proof fn lemma_fresh_frame_keeps_scores(
    g1: GameScene,
    zoom: i64,
    d1: GameData,
    g2: GameScene,
    d2: GameData,
    dt: int,
)
    requires
        is_fresh_match(g1, zoom),
        d1.wf(),
        d1.player_scores@ =~= seq![0u32, 0u32],
        match_frame_rel(g1, d1, g2, d2, dt),
        0 <= dt <= MAX_FRAME_MS,
    ensures
        d2.player_scores@ =~= seq![0u32, 0u32],
{
    let f0 = d1.p1_frames;
    let f1 = d1.p2_frames;
    let p0 = g1.players@[0];
    let p1 = g1.players@[1];
    let flown = flown_projectiles(p0, p1, f0, f1, g1.projectiles@, dt);
    assert(p0 == Player::spec_new_player(0, (600 * UNIT) as i64, (800 * UNIT) as i64));
    assert(p1 == Player::spec_new_player(1, (1320 * UNIT) as i64, (800 * UNIT) as i64));

    // nobody is shooting, so nothing spawns and nothing flies
    reveal(flown_projectiles);
    assert(p0.anim_transition().anim_state is Jump);
    assert(p1.anim_transition().anim_state is Jump);
    assert(flown.len() == 0);
    assert(!projectile_kill(p0, f0, flown, dt));
    assert(!projectile_kill(p1, f1, flown, dt));

    // the world after one scroll step: no rooftop yet, hazard still low,
    // no platform recycled
    let speed2 = scroll_speed_after(g1.scroll_speed as int, dt);
    let cam_pre = g1.camera_target.y - speed2 * dt;
    assert(SCROLL_START <= speed2 <= 60_540 && 0 <= speed2 * dt <= 6_054_000)
        by (nonlinear_arith)
        requires
            speed2 == scroll_speed_after(g1.scroll_speed as int, dt),
            g1.scroll_speed == SCROLL_START,
            0 <= dt <= 100,
            SCROLL_START == 60_000,
            SCROLL_CAP == 250_000,
            SCROLL_GROWTH_NUM == 9,
            SCROLL_GROWTH_DEN == 100_000,
    ;
    assert(cam_pre > ROOFTOP_Y);
    let lava = g2.lava_y as int;
    assert(lava == cam_pre + LAVA_OFFSET && lava >= 1_013_000_000);
    let plats = g2.platforms@;
    assert forall|k: int| 0 <= k < plats.len() implies #[trigger] plats[k] == gen_platform(
        k / 3,
        k % 3,
    ) && plats[k].y <= GEN_TOP_Y && plats[k].y % UNIT == 0 by {
        assert(g1.platforms@[k] == gen_platform(k / 3, k % 3));
        assert(wf_platform(g1.platforms@[k]));
        assert(g1.platforms@[k].y <= lava + RECYCLE_MARGIN);
    }

    // the settled players: one gravity step from the spawn point, well
    // above the hazard and between the platform rows
    let cam = g2.camera_target;
    let half = d1.screen_width * VIEW_SCALE / (d1.zoom_factor as int);
    assert((GRAVITY as int) / 1000 == 2400);
    assert(0 <= 2400 * dt * dt <= 24_000_000) by (nonlinear_arith)
        requires
            0 <= dt <= 100,
    ;
    reveal(player_after_anim);
    reveal(resolved_player);
    reveal(settled_player);
    let paa0 = player_after_anim(p0, f0, dt);
    let paa1 = player_after_anim(p1, f1, dt);
    assert(paa0.pos == p0.pos && paa0.vel == p0.vel && paa0.i_frame_timer == 0 && paa0.hp == 3);
    assert(paa1.pos == p1.pos && paa1.vel == p1.vel && paa1.i_frame_timer == 0 && paa1.hp == 3);
    let r0 = resolved_player(paa0, flown, cam);
    let r1 = resolved_player(paa1, flown, cam);
    assert(r0 == paa0 && r1 == paa1);
    let c0 = clamp_step(
        integrate_step(r0.iframe_tick(dt), dt),
        cam.x - half,
        cam.x + half,
    );
    let c1 = clamp_step(
        integrate_step(r1.iframe_tick(dt), dt),
        cam.x - half,
        cam.x + half,
    );
    let q0 = Player { grounded: false, ..c0 };
    let q1 = Player { grounded: false, ..c1 };
    assert(q0.pos.y == 800_000_000 + 2400 * dt * dt && q1.pos.y == q0.pos.y);
    assert forall|k: int| 0 <= k < plats.len() implies !lands(q0, #[trigger] plats[k])
        && !lands(q1, plats[k]) by {
        let row = k / 3;
        assert(plats[k].y == GEN_TOP_Y - row * ROW_SPACING);
        if row <= 1 {
            assert(plats[k].y >= 840_000_000);
        } else {
            assert(row * ROW_SPACING >= 2 * ROW_SPACING);
            assert(plats[k].y + LAND_BAND <= 710_000_000);
        }
    }
    lemma_land_scan_none(q0, plats, 0);
    lemma_land_scan_none(q1, plats, 0);
    assert(settled_player(r0, cam, half, plats, dt) == q0);
    assert(settled_player(r1, cam, half, plats, dt) == q1);
    assert(!hazard_kill(p0, f0, flown, cam, lava, half, plats, dt));
    assert(!hazard_kill(p1, f1, flown, cam, lava, half, plats, dt));

    // hence the score equations keep both counters at zero
    assert(d2.player_scores@[0] as int == 0 && d2.player_scores@[1] as int == 0);
    assert(d2.player_scores@ =~= seq![0u32, 0u32]);
}

/// The projectile spawned by `p`'s attack: it starts at the staff position
/// and flies along the aim direction at the projectile speed, owned by `p`.
pub open spec fn spawn_projectile(p: Player) -> Projectile {
    Projectile {
        pos: p.spec_staff_position(),
        vel: Vec2 {
            x: (p.aim.x * PROJECTILE_SPEED) as i64,
            y: (p.aim.y * PROJECTILE_SPEED) as i64,
        },
        active: true,
        owner_id: p.input_id,
    }
}

/// The projectile set a frame flies: the attack spawns of both players (in
/// player order) appended to the carried-over set, each advanced one flight
/// step.
#[verifier::opaque]
pub open spec fn flown_projectiles(
    p0: Player,
    p1: Player,
    f0: AnimFrameCounts,
    f1: AnimFrameCounts,
    projs: Seq<Projectile>,
    dt: int,
) -> Seq<Projectile> {
    let t0 = p0.anim_transition();
    let t1 = p1.anim_transition();
    let c0 = f0.spec_count(t0.anim_state);
    let c1 = f1.spec_count(t1.anim_state);
    let projs1 = if t0.anim_fires(c0 as int, dt) {
        projs.push(spawn_projectile(t0))
    } else {
        projs
    };
    let projs2 = if t1.anim_fires(c1 as int, dt) {
        projs1.push(spawn_projectile(t1))
    } else {
        projs1
    };
    projs2.map_values(|p: Projectile| p.flight_step(dt))
}

/// Player `k` after the animation phase: the re-derived state advanced by
/// one frame tick against the configured frame count.
#[verifier::opaque]
pub open spec fn player_after_anim(pl: Player, frames: AnimFrameCounts, dt: int) -> Player {
    let t = pl.anim_transition();
    t.anim_step(frames.spec_count(t.anim_state) as int, dt)
}

/// A player after the hit phase against the flown projectile set: one point
/// of damage exactly when some live opposing bolt meets the hitbox while
/// the player is vulnerable.
#[verifier::opaque]
pub open spec fn resolved_player(q: Player, flown: Seq<Projectile>, cam: Vec2) -> Player {
    if !q.spec_is_invincible() && hit_among(flown, flown.len() as int, q) {
        projectile_damage(q, cam)
    } else {
        q
    }
}

/// Whether the hit phase costs `q` the round.
pub open spec fn bolt_kill(q: Player, flown: Seq<Projectile>) -> bool {
    &&& !q.spec_is_invincible()
    &&& hit_among(flown, flown.len() as int, q)
    &&& q.hp == 1
}

/// A player settled after the hit phase: invincibility tick, gravity and
/// integration, horizontal containment, and the platform scan.
#[verifier::opaque]
pub open spec fn settled_player(
    r: Player,
    cam: Vec2,
    half: int,
    plats: Seq<Rect>,
    dt: int,
) -> Player {
    land_scan(
        (Player {
            grounded: false,
            ..clamp_step(
                integrate_step(r.iframe_tick(dt), dt),
                cam.x - half,
                cam.x + half,
            )
        }),
        plats,
        0,
    )
}

/// A player carried from the hit phase up to hazard contact.
pub open spec fn moved_player(
    q: Player,
    flown: Seq<Projectile>,
    cam: Vec2,
    half: int,
    plats: Seq<Rect>,
    dt: int,
) -> Player {
    settled_player(resolved_player(q, flown, cam), cam, half, plats, dt)
}

/// Whether a player's hit this frame was lethal (the opponent's point).
pub open spec fn projectile_kill(
    pl: Player,
    frames: AnimFrameCounts,
    flown: Seq<Projectile>,
    dt: int,
) -> bool {
    bolt_kill(player_after_anim(pl, frames, dt), flown)
}

/// A player carried through the whole frame up to hazard contact.
pub open spec fn player_before_hazard(
    pl: Player,
    frames: AnimFrameCounts,
    flown: Seq<Projectile>,
    cam: Vec2,
    half: int,
    plats: Seq<Rect>,
    dt: int,
) -> Player {
    moved_player(player_after_anim(pl, frames, dt), flown, cam, half, plats, dt)
}

/// A player at the end of the frame: the chain above closed off by
/// hazard contact.
pub open spec fn player_frame_outcome(
    pl: Player,
    frames: AnimFrameCounts,
    flown: Seq<Projectile>,
    cam: Vec2,
    lava: int,
    half: int,
    plats: Seq<Rect>,
    dt: int,
) -> Player {
    hazard_step(player_before_hazard(pl, frames, flown, cam, half, plats, dt), lava, cam)
}

/// Whether a player loses the round to the hazard this frame.
pub open spec fn hazard_kill(
    pl: Player,
    frames: AnimFrameCounts,
    flown: Seq<Projectile>,
    cam: Vec2,
    lava: int,
    half: int,
    plats: Seq<Rect>,
    dt: int,
) -> bool {
    hazard_kills(player_before_hazard(pl, frames, flown, cam, half, plats, dt), lava)
}

/// A freshly constructed match with the session's zoom: the start camera,
/// scroll speed and hazard line, no projectiles, the 135 generated
/// platforms, and the two players at their spawn points. This pins a fresh
/// scene completely (up to container representation).
pub open spec fn is_fresh_match(g: GameScene, zoom: i64) -> bool {
    &&& g.wf()
    &&& !g.is_on_rooftop
    &&& g.scroll_speed == SCROLL_START
    &&& g.lava_y == LAVA_START
    &&& g.camera_target == (Vec2 { x: CAMERA_START_X, y: CAMERA_START_Y })
    &&& g.camera_zoom == zoom
    &&& g.projectiles@.len() == 0
    &&& g.platforms@.len() == PLATFORM_COUNT
    &&& forall|k: int|
        0 <= k < PLATFORM_COUNT ==> #[trigger] g.platforms@[k] == gen_platform(k / 3, k % 3)
    &&& g.players@ =~= seq![
        Player::spec_new_player(0, (600 * UNIT) as i64, (800 * UNIT) as i64),
        Player::spec_new_player(1, (1320 * UNIT) as i64, (800 * UNIT) as i64),
    ]
}

/// The input phase of the match scene: both players' gathered intents are
/// applied, and nothing else of the scene changes.
pub open spec fn input_step_rel(
    s0: GameScene,
    i0: PlayerIntent,
    i1: PlayerIntent,
    dt: int,
    s1: GameScene,
) -> bool {
    &&& s1.players@ =~= seq![
        s0.players@[0].intent_step(i0, dt),
        s0.players@[1].intent_step(i1, dt),
    ]
    &&& s1 == (GameScene { players: s1.players, ..s0 })
}

/// One full simulation frame of the match scene, from `(s0, d0)` to
/// `(s1, d1)`: the world scroll with its exact speed recurrence, hazard
/// tracking, rooftop trigger and platform recycling; then the per-player
/// outcome chain (animation advance and spawning, projectile hits against
/// the flown set, kinematics, hazard contact), with the scores moving
/// exactly with the projectile and hazard kills.
pub open spec fn match_frame_rel(
    s0: GameScene,
    d0: GameData,
    s1: GameScene,
    d1: GameData,
    dt: int,
) -> bool {
    &&& s1.wf()
    &&& d1.wf()
    &&& d1 == (GameData { player_scores: d1.player_scores, ..d0 })
    &&& s1.camera_zoom == s0.camera_zoom
    &&& s0.is_on_rooftop ==> s1.is_on_rooftop && s1.camera_target == s0.camera_target
        && s1.scroll_speed == s0.scroll_speed && s1.lava_y == s0.lava_y
        && s1.platforms@ =~= s0.platforms@
    &&& !s0.is_on_rooftop ==> ({
        let speed2 = scroll_speed_after(s0.scroll_speed as int, dt);
        let cam_pre = s0.camera_target.y - speed2 * dt;
        let lava2 = cam_pre + LAVA_OFFSET;
        &&& s1.scroll_speed == speed2
        &&& s1.lava_y == lava2
        &&& s1.camera_target.x == s0.camera_target.x
        &&& if cam_pre <= ROOFTOP_Y {
            &&& s1.is_on_rooftop
            &&& s1.camera_target.y == ROOFTOP_Y
            &&& s1.platforms@ =~= seq![roof_platform()]
        } else {
            &&& !s1.is_on_rooftop
            &&& s1.camera_target.y == cam_pre
            &&& s1.platforms@.len() == s0.platforms@.len()
            &&& forall|k: int|
                0 <= k < s0.platforms@.len() ==> s1.platforms@[k] == recycle_platform(
                    #[trigger] s0.platforms@[k],
                    lava2 + RECYCLE_MARGIN,
                )
        }
    })
    &&& ({
        let cam = s1.camera_target;
        let lava = s1.lava_y as int;
        let plats = s1.platforms@;
        let half = d0.screen_width * VIEW_SCALE / (d0.zoom_factor as int);
        let f0 = d0.p1_frames;
        let f1 = d0.p2_frames;
        let p0 = s0.players@[0];
        let p1 = s0.players@[1];
        let flown = flown_projectiles(p0, p1, f0, f1, s0.projectiles@, dt);
        &&& s1.players@ =~= seq![
            player_frame_outcome(p0, f0, flown, cam, lava, half, plats, dt),
            player_frame_outcome(p1, f1, flown, cam, lava, half, plats, dt),
        ]
        &&& s1.projectiles@ =~= surviving_upto(
            flown,
            player_after_anim(p0, f0, dt),
            player_after_anim(p1, f1, dt),
            flown.len() as int,
        )
        &&& d1.player_scores@[0] as int == d0.player_scores@[0] + (if projectile_kill(
            p1,
            f1,
            flown,
            dt,
        ) {
            1int
        } else {
            0int
        }) + (if hazard_kill(p1, f1, flown, cam, lava, half, plats, dt) {
            1int
        } else {
            0int
        })
        &&& d1.player_scores@[1] as int == d0.player_scores@[1] + (if projectile_kill(
            p0,
            f0,
            flown,
            dt,
        ) {
            1int
        } else {
            0int
        }) + (if hazard_kill(p0, f0, flown, cam, lava, half, plats, dt) {
            1int
        } else {
            0int
        })
    })
}

impl GameScene {
    /// The two players are well-formed and sit at their own indices.
    pub open spec fn wf_players(self) -> bool {
        &&& self.players@.len() == 2
        &&& self.players@[0].wf() && self.players@[0].input_id == 0
        &&& self.players@[1].wf() && self.players@[1].input_id == 1
        &&& self.players@[0].hp >= 1 && self.players@[1].hp >= 1
    }

    /// Every projectile can fly one more frame; between frames the stronger
    /// scene well-formedness holds (active and inside the despawn bounds).
    pub open spec fn wf_projectiles_pre(self) -> bool {
        forall|k: int|
            0 <= k < self.projectiles@.len() ==> (#[trigger] self.projectiles@[k]).pre_flight()
    }

    /// The world half of well-formedness: the platform set, the camera,
    /// the scroll speed and the hazard line are all in their lawful ranges.
    pub open spec fn wf_world(self) -> bool {
        &&& if self.is_on_rooftop {
            self.platforms@ =~= seq![roof_platform()]
        } else {
            self.platforms@.len() == PLATFORM_COUNT && forall|k: int|
                0 <= k < self.platforms@.len() ==> wf_platform(#[trigger] self.platforms@[k])
        }
        &&& self.camera_target.x == CAMERA_START_X
        &&& ROOFTOP_Y <= self.camera_target.y <= CAMERA_START_Y
        &&& self.is_on_rooftop ==> self.camera_target.y == ROOFTOP_Y
        &&& 1 <= self.camera_zoom <= ZOOM_LIMIT
        &&& self.rooftop_y == ROOFTOP_Y
        &&& self.gravity == GRAVITY
        &&& SCROLL_START <= self.scroll_speed <= SCROLL_CAP
        &&& LAVA_MIN <= self.lava_y <= LAVA_START
        &&& self.lava_y >= self.camera_target.y + LAVA_OFFSET - MAX_SCROLL_STEP
    }

    /// Well-formedness kept across frames.
    pub open spec fn wf(self) -> bool {
        &&& self.wf_players()
        &&& forall|k: int|
            0 <= k < self.projectiles@.len() ==> (#[trigger] self.projectiles@[k]).wf()
                && self.projectiles@[k].active && crate::projectile::in_flight_bounds(
                self.projectiles@[k].pos,
            )
        &&& self.wf_world()
    }

    pub fn new(_n: usize, _width: i64, _height: i64, zoom: i64) -> (scene: GameScene)
        requires
            1 <= zoom <= ZOOM_LIMIT,
        ensures
            is_fresh_match(scene, zoom),
            scene.wf(),
            !scene.is_on_rooftop,
            scene.scroll_speed == SCROLL_START,
            scene.lava_y == LAVA_START,
            scene.camera_target == (Vec2 { x: CAMERA_START_X, y: CAMERA_START_Y }),
            scene.camera_zoom == zoom,
            scene.projectiles@.len() == 0,
            scene.platforms@.len() == PLATFORM_COUNT,
            forall|k: int|
                0 <= k < PLATFORM_COUNT ==> #[trigger] scene.platforms@[k] == gen_platform(
                    k / 3,
                    k % 3,
                ),
            scene.players@.len() == 2,
            scene.players@[0] == Player::spec_new_player(0, (600 * UNIT) as i64, (800 * UNIT) as i64),
            scene.players@[1] == Player::spec_new_player(1, (1320 * UNIT) as i64, (800 * UNIT) as i64),
    {
        let mut built_platforms: Vec<Rect> = Vec::new();

        // procedural platform generation; row positions tracked in whole
        // units and scaled on use
        let mut i: usize = 0;
        while i < PLATFORM_ROWS
            invariant
                0 <= i <= PLATFORM_ROWS,
                built_platforms@.len() == i * PLATFORM_COLS,
                forall|k: int|
                    0 <= k < built_platforms@.len() ==> #[trigger] built_platforms@[k]
                        == gen_platform(k / 3, k % 3),
                forall|k: int|
                    0 <= k < built_platforms@.len() ==> wf_platform(
                        #[trigger] built_platforms@[k],
                    ),
            decreases PLATFORM_ROWS - i,
        {
            let mut j: usize = 0;
            while j < PLATFORM_COLS
                invariant
                    0 <= i < PLATFORM_ROWS,
                    0 <= j <= PLATFORM_COLS,
                    built_platforms@.len() == i * PLATFORM_COLS + j,
                    forall|k: int|
                        0 <= k < built_platforms@.len() ==> #[trigger] built_platforms@[k]
                            == gen_platform(k / 3, k % 3),
                    forall|k: int|
                        0 <= k < built_platforms@.len() ==> wf_platform(
                            #[trigger] built_platforms@[k],
                        ),
                decreases PLATFORM_COLS - j,
            {
                let seed: i64 = (i as i64) * 13 + (j as i64) * 31;
                let width_units: i64 = 200 + seed % 150;
                let x_units: i64 = (seed * 617) % 1500 + 100;
                let y_units: i64 = 1000 - (i as i64) * 160;
                let plat = Rect {
                    x: x_units * UNIT,
                    y: y_units * UNIT,
                    width: width_units * UNIT,
                    height: PLATFORM_HEIGHT,
                };
                proof {
                    let k = built_platforms@.len() as int;
                    assert(k == i * 3 + j);
                    assert((i * 3 + j) / 3 == i as int && (i * 3 + j) % 3 == j as int)
                        by (nonlinear_arith)
                        requires
                            0 <= i,
                            0 <= j < 3,
                    ;
                    assert(y_units * UNIT == GEN_TOP_Y - i * ROW_SPACING) by (nonlinear_arith)
                        requires
                            y_units == 1000 - i * 160,
                            GEN_TOP_Y == 1000 * UNIT,
                            ROW_SPACING == 160 * UNIT,
                            UNIT == 1_000_000,
                    ;
                    assert(plat == gen_platform(k / 3, k % 3));
                    assert((x_units * UNIT) % (UNIT as int) == 0 && (y_units * UNIT) % (
                    UNIT as int) == 0 && (width_units * UNIT) % (UNIT as int) == 0)
                        by (nonlinear_arith)
                        requires
                            UNIT == 1_000_000,
                    ;
                    assert(100 * UNIT <= x_units * UNIT <= 1599 * UNIT && PLATFORM_Y_MIN
                        <= y_units * UNIT <= GEN_TOP_Y && 200 * UNIT <= width_units * UNIT <= 349
                        * UNIT) by (nonlinear_arith)
                        requires
                            100 <= x_units <= 1599,
                            -15000 <= y_units <= 1000,
                            200 <= width_units <= 349,
                            UNIT == 1_000_000,
                            GEN_TOP_Y == 1000 * UNIT,
                            PLATFORM_Y_MIN <= -15000 * UNIT,
                    ;
                    assert(wf_platform(plat));
                }
                built_platforms.push(plat);
                j = j + 1;
            }
            i = i + 1;
        }

        let mut players: Vec<Player> = Vec::new();
        players.push(Player::new(0, 600 * UNIT, 800 * UNIT));
        players.push(Player::new(1, 1320 * UNIT, 800 * UNIT));

        GameScene {
            gravity: GRAVITY,
            players,
            projectiles: Vec::new(),
            platforms: built_platforms,
            camera_target: Vec2 { x: CAMERA_START_X, y: CAMERA_START_Y },
            camera_zoom: zoom,
            scroll_speed: SCROLL_START,
            lava_y: LAVA_START,
            is_on_rooftop: false,
            rooftop_y: ROOFTOP_Y,
        }
    }

    /// Scroll phase: while the rooftop has not been reached, the scroll
    /// speed compounds and is capped, the camera rises, the hazard line
    /// tracks it, the rooftop transition is detected, and platforms fallen
    /// below the hazard are recycled. Once on the rooftop nothing here moves
    /// again. Recycling never changes how many platforms there are.
    #[verifier::rlimit(60)]
    pub fn update_world(&mut self, dt: i64)
        requires
            old(self).wf(),
            0 <= dt <= MAX_FRAME_MS,
        ensures
            final(self).wf(),
            final(self).players == old(self).players,
            final(self).projectiles == old(self).projectiles,
            final(self).camera_zoom == old(self).camera_zoom,
            final(self).gravity == old(self).gravity,
            final(self).rooftop_y == old(self).rooftop_y,
            final(self).camera_target.x == old(self).camera_target.x,
            final(self).platforms@.len() == old(self).platforms@.len() || (
            !old(self).is_on_rooftop && final(self).is_on_rooftop),
            old(self).is_on_rooftop ==> *final(self) == *old(self),
            !old(self).is_on_rooftop ==> {
                let speed2 = scroll_speed_after(old(self).scroll_speed as int, dt as int);
                let cam_pre = old(self).camera_target.y - speed2 * dt;
                let lava2 = cam_pre + LAVA_OFFSET;
                &&& final(self).scroll_speed == speed2
                &&& final(self).lava_y == lava2
                &&& if cam_pre <= ROOFTOP_Y {
                    &&& final(self).is_on_rooftop
                    &&& final(self).camera_target.y == ROOFTOP_Y
                    &&& final(self).platforms@ =~= seq![roof_platform()]
                } else {
                    &&& !final(self).is_on_rooftop
                    &&& final(self).camera_target.y == cam_pre
                    &&& final(self).platforms@.len() == old(self).platforms@.len()
                    &&& forall|k: int|
                        0 <= k < old(self).platforms@.len() ==> final(self).platforms@[k]
                            == recycle_platform(
                            #[trigger] old(self).platforms@[k],
                            lava2 + RECYCLE_MARGIN,
                        )
                }
            },
    {
        if self.is_on_rooftop {
            return ;
        }

        // scrolling up gets faster over time
        proof {
            let s0 = self.scroll_speed as int;
            assert(0 <= s0 * SCROLL_GROWTH_NUM * dt <= 225_000_000 && 0 <= s0 * SCROLL_GROWTH_NUM
                * dt / (SCROLL_GROWTH_DEN as int) <= 2250) by (nonlinear_arith)
                requires
                    0 <= s0 <= SCROLL_CAP,
                    0 <= dt <= MAX_FRAME_MS,
                    SCROLL_CAP == 250_000,
                    MAX_FRAME_MS == 100,
                    SCROLL_GROWTH_NUM == 9,
                    SCROLL_GROWTH_DEN == 100_000,
            ;
        }
        let growth: i64 = self.scroll_speed * SCROLL_GROWTH_NUM * dt / SCROLL_GROWTH_DEN;
        self.scroll_speed = self.scroll_speed + growth;
        if self.scroll_speed > SCROLL_CAP {
            self.scroll_speed = SCROLL_CAP;
        }
        proof {
            let sp = self.scroll_speed as int;
            assert(0 <= sp * dt <= MAX_SCROLL_STEP) by (nonlinear_arith)
                requires
                    0 <= sp <= SCROLL_CAP,
                    0 <= dt <= MAX_FRAME_MS,
            ;
        }
        self.camera_target.y = self.camera_target.y - self.scroll_speed * dt;
        self.lava_y = self.camera_target.y + LAVA_OFFSET;

        // check if we reached the roof for the final duel
        if self.camera_target.y <= ROOFTOP_Y {
            self.is_on_rooftop = true;
            self.camera_target.y = ROOFTOP_Y;
            self.platforms.clear();
            self.platforms.push(
                Rect {
                    x: ROOF_PLATFORM_X,
                    y: ROOFTOP_Y + ROOF_PLATFORM_DROP,
                    width: ROOF_PLATFORM_WIDTH,
                    height: ROOF_PLATFORM_HEIGHT,
                },
            );
        }

        // platform recycling to keep the tower going
        let bottom_limit: i64 = self.lava_y + RECYCLE_MARGIN;
        recycle_all(&mut self.platforms, bottom_limit);
        proof {
            if self.is_on_rooftop {
                assert(roof_platform().y < bottom_limit);
                assert(self.platforms@ =~= seq![roof_platform()]);
            } else {
                assert forall|k: int| 0 <= k < self.platforms@.len() implies wf_platform(
                    self.platforms@[k],
                ) by {
                    assert(wf_platform(old(self).platforms@[k]));
                }
            }
        }
    }

    /// Apply both players' gathered input. The match scene never requests a
    /// scene switch from its input phase.
    pub fn handle_input(&mut self, intents: &[PlayerIntent; 2], dt: i64) -> (switch: SceneSwitch)
        requires
            old(self).wf(),
            intents@[0].wf(),
            intents@[1].wf(),
            0 <= dt <= MAX_FRAME_MS,
        ensures
            final(self).wf(),
            switch == SceneSwitch::Stay,
            input_step_rel(*old(self), intents@[0], intents@[1], dt as int, *final(self)),
            final(self).players@ =~= seq![
                old(self).players@[0].intent_step(intents@[0], dt as int),
                old(self).players@[1].intent_step(intents@[1], dt as int),
            ],
            *final(self) == (GameScene { players: final(self).players, ..*old(self) }),
    {
        let mut p0 = self.players[0];
        p0.apply_intent(&intents[0], dt);
        self.players.set(0, p0);
        let mut p1 = self.players[1];
        p1.apply_intent(&intents[1], dt);
        self.players.set(1, p1);
        SceneSwitch::Stay
    }

    /// Animation phase for player `k`: re-derive the animation state,
    /// advance the frame timer against the configured frame count, and
    /// spawn the attack projectile if this advance fires.
    fn animate_one(&mut self, k: usize, data: &GameData, dt: i64)
        requires
            old(self).wf_players(),
            old(self).wf_projectiles_pre(),
            k < 2,
            data.wf(),
            0 <= dt <= MAX_FRAME_MS,
        ensures
            final(self).wf_players(),
            final(self).wf_projectiles_pre(),
            ({
                let t = old(self).players@[k as int].anim_transition();
                let c = data.spec_frame_count(k, t.anim_state);
                let fires = t.anim_fires(c as int, dt as int);
                &&& final(self).players@ =~= old(self).players@.update(
                    k as int,
                    t.anim_step(c as int, dt as int),
                )
                &&& final(self).projectiles@ =~= if fires {
                    old(self).projectiles@.push(spawn_projectile(t))
                } else {
                    old(self).projectiles@
                }
            }),
            *final(self) == (GameScene {
                players: final(self).players,
                projectiles: final(self).projectiles,
                ..*old(self)
            }),
    {
        let mut p = self.players[k];
        p.apply_anim_transition();
        let count = data.frame_count(k, p.anim_state);
        let fired = p.advance_animation(count, dt);
        if fired {
            let vel = Vec2 { x: p.aim.x * PROJECTILE_SPEED, y: p.aim.y * PROJECTILE_SPEED };
            let bolt = Projectile::new(p.staff_position(), vel, p.input_id);
            self.projectiles.push(bolt);
        }
        self.players.set(k, p);
    }

    /// Flight phase: every projectile advances by `velocity * dt` and is
    /// deactivated once it leaves the despawn bounds.
    fn step_projectiles(&mut self, dt: i64)
        requires
            old(self).wf_projectiles_pre(),
            0 <= dt <= MAX_FRAME_MS,
        ensures
            final(self).projectiles@.len() == old(self).projectiles@.len(),
            forall|k: int|
                0 <= k < old(self).projectiles@.len() ==> final(self).projectiles@[k] == (
                #[trigger] old(self).projectiles@[k]).flight_step(dt as int),
            forall|k: int|
                0 <= k < final(self).projectiles@.len() ==> (
                #[trigger] final(self).projectiles@[k]).wf(),
            *final(self) == (GameScene { projectiles: final(self).projectiles, ..*old(self) }),
    {
        let ghost pre = self.projectiles@;
        let ghost scene_pre = *self;
        let mut idx: usize = 0;
        while idx < self.projectiles.len()
            invariant
                *self == (GameScene { projectiles: self.projectiles, ..scene_pre }),
                self.projectiles@.len() == pre.len(),
                0 <= idx <= pre.len(),
                forall|k: int|
                    0 <= k < idx ==> self.projectiles@[k] == (#[trigger] pre[k]).flight_step(
                        dt as int,
                    ),
                forall|k: int|
                    0 <= k < idx ==> (#[trigger] self.projectiles@[k]).wf(),
                forall|k: int| idx <= k < pre.len() ==> #[trigger] self.projectiles@[k] == pre[k],
            decreases pre.len() - idx,
        {
            let mut bolt = self.projectiles[idx];
            bolt.update(dt);
            self.projectiles.set(idx, bolt);
            idx = idx + 1;
        }
    }

    /// One full simulation frame, in the authoritative order: world scroll
    /// and platform recycling; animation advance with projectile spawning;
    /// projectile flight; hit resolution; projectile culling; per-player
    /// physics, platform landing and hazard contact; and last of all the
    /// win-condition check, with nothing after it that could move a score.
    /// Scores only ever grow here, and the win screen is requested exactly
    /// when a score has reached the threshold.
    #[verifier::rlimit(100)]
    pub fn update(&mut self, dt: i64, data: &mut GameData) -> (switch: SceneSwitch)
        requires
            old(self).wf(),
            old(data).wf(),
            old(data).player_scores@[0] < WIN_SCORE,
            old(data).player_scores@[1] < WIN_SCORE,
            0 <= dt <= MAX_FRAME_MS,
        ensures
            final(self).wf(),
            final(data).wf(),
            match_frame_rel(*old(self), *old(data), *final(self), *final(data), dt as int),
            switch == (if final(data).player_scores@[0] >= WIN_SCORE
                || final(data).player_scores@[1] >= WIN_SCORE {
                SceneSwitch::Push(SceneId::Win)
            } else {
                SceneSwitch::Stay
            }),
    {
        self.update_world(dt);
        self.animate_and_fly(data, dt);
        self.resolve_and_cull(data);
        self.settle_players(data, dt);

        // win condition
        if data.player_scores[0] >= WIN_SCORE || data.player_scores[1] >= WIN_SCORE {
            SceneSwitch::Push(SceneId::Win)
        } else {
            SceneSwitch::Stay
        }
    }

    /// Animation and flight phases: both players re-derive and advance
    /// their animations (possibly spawning their attack projectiles, in
    /// player order), then every projectile flies one step and is marked
    /// for despawn out of bounds. Nothing else of the scene moves.
    #[verifier::rlimit(60)]
    fn animate_and_fly(&mut self, data: &GameData, dt: i64)
        requires
            old(self).wf(),
            data.wf(),
            0 <= dt <= MAX_FRAME_MS,
        ensures
            final(self).wf_players(),
            *final(self) == (GameScene {
                players: final(self).players,
                projectiles: final(self).projectiles,
                ..*old(self)
            }),
            final(self).players@ =~= seq![
                player_after_anim(old(self).players@[0], data.p1_frames, dt as int),
                player_after_anim(old(self).players@[1], data.p2_frames, dt as int),
            ],
            final(self).projectiles@ =~= flown_projectiles(
                old(self).players@[0],
                old(self).players@[1],
                data.p1_frames,
                data.p2_frames,
                old(self).projectiles@,
                dt as int,
            ),
            forall|j: int|
                0 <= j < final(self).projectiles@.len() ==> (
                #[trigger] final(self).projectiles@[j]).wf() && (final(self).projectiles@[j].active
                    ==> crate::projectile::in_flight_bounds(final(self).projectiles@[j].pos)),
    {
        let ghost players_in = self.players@;
        let ghost projs_in = self.projectiles@;

        self.animate_one(0, data, dt);
        self.animate_one(1, data, dt);
        let ghost t0 = players_in[0].anim_transition();
        let ghost c0 = data.spec_frame_count(0, t0.anim_state);
        let ghost a0 = t0.anim_step(c0 as int, dt as int);
        let ghost t1 = players_in[1].anim_transition();
        let ghost c1 = data.spec_frame_count(1, t1.anim_state);
        let ghost a1 = t1.anim_step(c1 as int, dt as int);
        let ghost projs1 = if t0.anim_fires(c0 as int, dt as int) {
            projs_in.push(spawn_projectile(t0))
        } else {
            projs_in
        };
        let ghost projs2 = if t1.anim_fires(c1 as int, dt as int) {
            projs1.push(spawn_projectile(t1))
        } else {
            projs1
        };
        proof {
            reveal(player_after_anim);
            assert(self.players@ =~= seq![a0, a1]);
            assert(self.players@ =~= seq![
                player_after_anim(players_in[0], data.p1_frames, dt as int),
                player_after_anim(players_in[1], data.p2_frames, dt as int),
            ]);
            assert(self.projectiles@ =~= projs2);
        }

        let ghost flown = flown_projectiles(
            players_in[0],
            players_in[1],
            data.p1_frames,
            data.p2_frames,
            projs_in,
            dt as int,
        );
        let ghost before_step = self.projectiles@;
        self.step_projectiles(dt);
        let ghost after_step = self.projectiles@;
        proof {
            reveal(flown_projectiles);
            assert forall|k: int| 0 <= k < flown.len() implies after_step[k] == flown[k] by {
                assert(after_step[k] == before_step[k].flight_step(dt as int));
                assert(flown[k] == projs2[k].flight_step(dt as int));
            }
            assert(flown.len() == projs2.len());
            assert(after_step =~= flown);
        }
    }

    /// Hit resolution and culling: projectile hits are resolved (with
    /// their kills scored) and spent projectiles leave the set. Each player
    /// ends up exactly one point of damage down when some live opposing
    /// bolt met them while vulnerable, and untouched otherwise.
    #[verifier::rlimit(60)]
    fn resolve_and_cull(&mut self, data: &mut GameData)
        requires
            old(self).wf_players(),
            old(self).camera_target.x == CAMERA_START_X,
            ROOFTOP_Y <= old(self).camera_target.y <= CAMERA_START_Y,
            forall|j: int|
                0 <= j < old(self).projectiles@.len() ==> (
                #[trigger] old(self).projectiles@[j]).wf() && (old(self).projectiles@[j].active
                    ==> crate::projectile::in_flight_bounds(old(self).projectiles@[j].pos)),
            old(data).wf(),
            old(data).player_scores@[0] < SCORE_LIMIT - 2,
            old(data).player_scores@[1] < SCORE_LIMIT - 2,
        ensures
            final(self).wf_players(),
            final(data).wf(),
            *final(self) == (GameScene {
                players: final(self).players,
                projectiles: final(self).projectiles,
                ..*old(self)
            }),
            *final(data) == (GameData { player_scores: final(data).player_scores, ..*old(data) }),
            final(self).players@ =~= seq![
                resolved_player(
                    old(self).players@[0],
                    old(self).projectiles@,
                    old(self).camera_target,
                ),
                resolved_player(
                    old(self).players@[1],
                    old(self).projectiles@,
                    old(self).camera_target,
                ),
            ],
            forall|k: int|
                0 <= k < final(self).projectiles@.len() ==> (
                #[trigger] final(self).projectiles@[k]).wf() && final(self).projectiles@[k].active
                    && crate::projectile::in_flight_bounds(final(self).projectiles@[k].pos),
            final(self).projectiles@ =~= surviving_upto(
                old(self).projectiles@,
                old(self).players@[0],
                old(self).players@[1],
                old(self).projectiles@.len() as int,
            ),
            final(data).player_scores@[0] as int == old(data).player_scores@[0] + (if bolt_kill(
                old(self).players@[1],
                old(self).projectiles@,
            ) {
                1int
            } else {
                0int
            }),
            final(data).player_scores@[1] as int == old(data).player_scores@[1] + (if bolt_kill(
                old(self).players@[0],
                old(self).projectiles@,
            ) {
                1int
            } else {
                0int
            }),
    {
        let ghost q0 = self.players@[0];
        let ghost q1 = self.players@[1];
        let ghost flown = self.projectiles@;
        let ghost scores_in = data.player_scores@;
        let ghost cam = self.camera_target;
        let ghost hit0 = !q0.spec_is_invincible() && hit_among(flown, flown.len() as int, q0);
        let ghost hit1 = !q1.spec_is_invincible() && hit_among(flown, flown.len() as int, q1);
        let ghost r0 = resolved_player(q0, flown, cam);
        let ghost r1 = resolved_player(q1, flown, cam);

        self.resolve_projectile_hits(data);
        let ghost after_resolve = self.projectiles@;
        proof {
            reveal(resolved_player);
            assert(r0 == (if hit0 {
                projectile_damage(q0, cam)
            } else {
                q0
            }));
            assert(r1 == (if hit1 {
                projectile_damage(q1, cam)
            } else {
                q1
            }));
            // damage always moves the hit points, so the resolver's
            // changed-player test coincides with the hit predicates
            if hit0 {
                assert(projectile_damage(q0, cam).hp != q0.hp);
            }
            if hit1 {
                assert(projectile_damage(q1, cam).hp != q1.hp);
            }
            assert(self.players@[0] == r0 && self.players@[1] == r1);
            assert(self.players@ =~= seq![r0, r1]);
            assert(data.player_scores@[0] as int == scores_in[0] + (if bolt_kill(q1, flown) {
                1int
            } else {
                0int
            }));
            assert(data.player_scores@[1] as int == scores_in[1] + (if bolt_kill(q0, flown) {
                1int
            } else {
                0int
            }));
        }

        self.cull_projectiles();
        proof {
            // what survives the cull was live and inside the despawn bounds
            assert forall|k: int| 0 <= k < self.projectiles@.len() implies ((
            #[trigger] self.projectiles@[k]).wf() && self.projectiles@[k].active
                && crate::projectile::in_flight_bounds(self.projectiles@[k].pos)) by {
                let j = choose|j: int|
                    0 <= j < after_resolve.len() && self.projectiles@[k] == after_resolve[j];
                assert(after_resolve[j] == flown[j] || after_resolve[j] == (Projectile {
                    active: false,
                    ..flown[j]
                }));
                assert(flown[j].wf());
            }
            // and the survivors are exactly the unspent live bolts, in order
            lemma_filter_flagged(flown, q0, q1, after_resolve, flown.len() as int);
            assert(after_resolve.subrange(0, flown.len() as int) =~= after_resolve);
            assert(self.projectiles@ =~= surviving_upto(flown, q0, q1, flown.len() as int));
        }
    }

    /// Settling phase: both players run their physics, platform landing
    /// and hazard contact, in player order; a hazard kill credits the
    /// opponent. The world — camera, platforms, scroll, hazard line —
    /// does not move here.
    #[verifier::rlimit(60)]
    fn settle_players(&mut self, data: &mut GameData, dt: i64)
        requires
            old(self).wf_players(),
            old(self).wf_world(),
            forall|j: int|
                0 <= j < old(self).projectiles@.len() ==> (
                #[trigger] old(self).projectiles@[j]).wf() && old(self).projectiles@[j].active
                    && crate::projectile::in_flight_bounds(old(self).projectiles@[j].pos),
            old(data).wf(),
            old(data).player_scores@[0] < SCORE_LIMIT - 1,
            old(data).player_scores@[1] < SCORE_LIMIT - 1,
            0 <= dt <= MAX_FRAME_MS,
        ensures
            final(self).wf(),
            final(data).wf(),
            *final(self) == (GameScene { players: final(self).players, ..*old(self) }),
            *final(data) == (GameData { player_scores: final(data).player_scores, ..*old(data) }),
            ({
                let cam = old(self).camera_target;
                let lava = old(self).lava_y as int;
                let plats = old(self).platforms@;
                let half = old(data).screen_width * VIEW_SCALE / (old(data).zoom_factor as int);
                &&& final(self).players@ =~= seq![
                    hazard_step(
                        settled_player(old(self).players@[0], cam, half, plats, dt as int),
                        lava,
                        cam,
                    ),
                    hazard_step(
                        settled_player(old(self).players@[1], cam, half, plats, dt as int),
                        lava,
                        cam,
                    ),
                ]
                &&& final(data).player_scores@[0] as int == old(data).player_scores@[0] + (
                if hazard_kills(
                    settled_player(old(self).players@[1], cam, half, plats, dt as int),
                    lava,
                ) {
                    1int
                } else {
                    0int
                })
                &&& final(data).player_scores@[1] as int == old(data).player_scores@[1] + (
                if hazard_kills(
                    settled_player(old(self).players@[0], cam, half, plats, dt as int),
                    lava,
                ) {
                    1int
                } else {
                    0int
                })
            }),
    {
        let ghost r0 = self.players@[0];
        let ghost r1 = self.players@[1];
        let ghost cam = self.camera_target;
        let ghost lava = self.lava_y as int;

        self.physics_one(0, data, dt);
        self.physics_one(1, data, dt);
        proof {
            reveal(settled_player);
            let half = data.screen_width * VIEW_SCALE / (data.zoom_factor as int);
            let m0 = settled_player(r0, cam, half, self.platforms@, dt as int);
            let m1 = settled_player(r1, cam, half, self.platforms@, dt as int);
            assert(m0 == land_scan(
                (Player {
                    grounded: false,
                    ..clamp_step(
                        integrate_step(r0.iframe_tick(dt as int), dt as int),
                        cam.x - half,
                        cam.x + half,
                    )
                }),
                self.platforms@,
                0,
            ));
            assert(m1 == land_scan(
                (Player {
                    grounded: false,
                    ..clamp_step(
                        integrate_step(r1.iframe_tick(dt as int), dt as int),
                        cam.x - half,
                        cam.x + half,
                    )
                }),
                self.platforms@,
                0,
            ));
            assert(self.players@ =~= seq![hazard_step(m0, lava, cam), hazard_step(m1, lava, cam)]);
        }
    }

    /// Hit-resolution phase: every live projectile is tested against every
    /// player; owners are skipped (no self-damage) and so are players still
    /// invincible. Each player therefore takes at most one point of damage
    /// per frame from projectiles, and exactly when some live opposing
    /// projectile meets their hitbox while they are vulnerable. A kill
    /// credits the bolt's owner with one point.
    pub fn resolve_projectile_hits(&mut self, data: &mut GameData)
        requires
            old(self).wf_players(),
            forall|j: int|
                0 <= j < old(self).projectiles@.len() ==> (#[trigger] old(
                    self,
                ).projectiles@[j]).wf(),
            old(data).wf(),
            old(data).player_scores@[0] < SCORE_LIMIT,
            old(data).player_scores@[1] < SCORE_LIMIT,
            old(self).camera_target.x == CAMERA_START_X,
            ROOFTOP_Y <= old(self).camera_target.y <= CAMERA_START_Y,
        ensures
            final(self).wf_players(),
            final(data).wf(),
            forall|k: int|
                0 <= k < 2 ==> final(self).players@[k] == (if !old(
                    self,
                ).players@[k].spec_is_invincible() && hit_among(
                    old(self).projectiles@,
                    old(self).projectiles@.len() as int,
                    old(self).players@[k],
                ) {
                    projectile_damage(old(self).players@[k], old(self).camera_target)
                } else {
                    old(self).players@[k]
                }),
            forall|k: int|
                0 <= k < 2 ==> final(data).player_scores@[k] as int == old(
                    data,
                ).player_scores@[k] + (if final(self).players@[1 - k] != old(self).players@[1 - k]
                    && old(self).players@[1 - k].hp == 1 {
                    1int
                } else {
                    0int
                }),
            // no self-damage: a player all projectiles belong to is untouched
            forall|kk: int|
                0 <= kk < 2 && (forall|j: int|
                    0 <= j < old(self).projectiles@.len()
                        ==> (#[trigger] old(self).projectiles@[j]).owner_id
                        == old(self).players@[kk].input_id)
                    ==> final(self).players@[kk] == old(self).players@[kk],
            final(self).projectiles@.len() == old(self).projectiles@.len(),
            // a projectile is deactivated exactly when it struck a player:
            // it was live and it is the first of the pass to touch one of
            // them while vulnerable
            forall|j: int|
                0 <= j < old(self).projectiles@.len() ==> final(self).projectiles@[j] == (
                Projectile {
                    active: old(self).projectiles@[j].active && !bolt_spent(
                        old(self).projectiles@,
                        j,
                        old(self).players@[0],
                        old(self).players@[1],
                    ),
                    ..old(self).projectiles@[j]
                }),
            *final(self) == (GameScene {
                players: final(self).players,
                projectiles: final(self).projectiles,
                ..*old(self)
            }),
            *final(data) == (GameData { player_scores: final(data).player_scores, ..*old(data) }),
    {
        let cam = self.camera_target;
        let ghost projs0 = self.projectiles@;
        let ghost players0 = self.players@;
        let ghost scores0 = data.player_scores@;
        let ghost scene0 = *self;
        let ghost data0 = *data;
        let mut idx: usize = 0;
        while idx < self.projectiles.len()
            invariant
                *self == (GameScene {
                    players: self.players,
                    projectiles: self.projectiles,
                    ..scene0
                }),
                *data == (GameData { player_scores: data.player_scores, ..data0 }),
                self.wf_players(),
                data.wf(),
                0 <= idx <= projs0.len(),
                self.projectiles@.len() == projs0.len(),
                forall|j: int| idx <= j < projs0.len() ==> self.projectiles@[j] == projs0[j],
                forall|j: int|
                    0 <= j < idx ==> self.projectiles@[j] == (Projectile {
                        active: projs0[j].active && !bolt_spent(
                            projs0,
                            j,
                            players0[0],
                            players0[1],
                        ),
                        ..projs0[j]
                    }),
                forall|k: int|
                    0 <= k < 2 ==> self.players@[k] == (if !players0[k].spec_is_invincible()
                        && hit_among(projs0, idx as int, players0[k]) {
                        projectile_damage(players0[k], cam)
                    } else {
                        players0[k]
                    }),
                forall|k: int|
                    0 <= k < 2 ==> data.player_scores@[k] as int == scores0[k] + (
                    if self.players@[1 - k] != players0[1 - k] && players0[1 - k].hp == 1 {
                        1int
                    } else {
                        0int
                    }),
            decreases projs0.len() - idx,
        {
            let bolt = self.projectiles[idx];
            proof {
                assert((old(self).projectiles@[idx as int]).wf());
                assert(bolt.wf());
            }
            if bolt.active {
                let mut p0 = self.players[0];
                let hit0 = try_hit_player(bolt.pos, bolt.owner_id, &mut p0, data, cam);
                self.players.set(0, p0);
                let mut p1 = self.players[1];
                let hit1 = try_hit_player(bolt.pos, bolt.owner_id, &mut p1, data, cam);
                self.players.set(1, p1);
                proof {
                    // at processing time a player is either untouched (and
                    // the helper's test is this bolt striking first) or
                    // already hit and invincible (and neither test fires)
                    assert(hit0 == bolt_strikes(projs0, idx as int, players0[0]));
                    assert(hit1 == bolt_strikes(projs0, idx as int, players0[1]));
                }
                if hit0 || hit1 {
                    self.projectiles.set(idx, Projectile { active: false, ..bolt });
                }
            } else {
                proof {
                    assert(!bolt_spent(projs0, idx as int, players0[0], players0[1]));
                    assert(self.projectiles@[idx as int] == (Projectile {
                        active: projs0[idx as int].active && !bolt_spent(
                            projs0,
                            idx as int,
                            players0[0],
                            players0[1],
                        ),
                        ..projs0[idx as int]
                    }));
                }
            }
            proof {
                lemma_hit_among_step(projs0, idx as int, players0[0]);
                lemma_hit_among_step(projs0, idx as int, players0[1]);
            }
            idx = idx + 1;
        }
        proof {
            assert forall|kk: int|
                0 <= kk < 2 && (forall|j: int|
                    0 <= j < old(self).projectiles@.len()
                        ==> (#[trigger] old(self).projectiles@[j]).owner_id == old(
                    self,
                ).players@[kk].input_id) implies self.players@[kk] == old(self).players@[kk] by {
                lemma_no_self_damage(projs0, players0[kk]);
            }
        }
    }

    /// Physics phase for player `k`, in the fixed order: invincibility tick,
    /// gravity and Euler integration, horizontal containment at the view
    /// edges, the platform scan (grounded is recomputed from scratch), and
    /// hazard contact.
    fn physics_one(&mut self, k: usize, data: &mut GameData, dt: i64)
        requires
            old(self).wf_players(),
            k < 2,
            old(data).wf(),
            old(data).player_scores@[0] < SCORE_LIMIT,
            old(data).player_scores@[1] < SCORE_LIMIT,
            0 <= dt <= MAX_FRAME_MS,
            old(self).camera_target.x == CAMERA_START_X,
            ROOFTOP_Y <= old(self).camera_target.y <= CAMERA_START_Y,
            LAVA_MIN <= old(self).lava_y <= LAVA_START,
            old(self).gravity == GRAVITY,
            forall|j: int|
                0 <= j < old(self).platforms@.len() ==> wf_platform(
                    #[trigger] old(self).platforms@[j],
                ) || old(self).platforms@[j] == roof_platform(),
        ensures
            final(self).wf_players(),
            final(data).wf(),
            ({
                let cam = old(self).camera_target;
                let half = old(data).screen_width * VIEW_SCALE / (old(data).zoom_factor as int);
                let a = old(self).players@[k as int].iframe_tick(dt as int);
                let b = integrate_step(a, dt as int);
                let c = clamp_step(b, cam.x - half, cam.x + half);
                let d = land_scan(
                    (Player { grounded: false, ..c }),
                    old(self).platforms@,
                    0,
                );
                let e = hazard_step(d, old(self).lava_y as int, cam);
                &&& final(self).players@ =~= old(self).players@.update(k as int, e)
                &&& final(data).player_scores@ =~= if hazard_kills(d, old(self).lava_y as int) {
                    old(data).player_scores@.update(
                        1 - (k as int),
                        (old(data).player_scores@[1 - (k as int)] + 1) as u32,
                    )
                } else {
                    old(data).player_scores@
                }
            }),
            *final(self) == (GameScene { players: final(self).players, ..*old(self) }),
            *final(data) == (GameData { player_scores: final(data).player_scores, ..*old(data) }),
    {
        let mut p = self.players[k];
        move_player(&mut p, &self.platforms, data.screen_width, data.zoom_factor,
            self.camera_target, dt);
        apply_hazard(&mut p, data, self.lava_y, self.camera_target);
        self.players.set(k, p);
    }

    /// Cull phase: deactivated projectiles leave the active set; the rest
    /// keep their order.
    fn cull_projectiles(&mut self)
        ensures
            final(self).projectiles@ =~= old(self).projectiles@.filter(|p: Projectile| p.active),
            forall|k: int|
                0 <= k < final(self).projectiles@.len() ==> (
                #[trigger] final(self).projectiles@[k]).active && exists|j: int|
                    0 <= j < old(self).projectiles@.len() && final(self).projectiles@[k] == old(
                        self,
                    ).projectiles@[j],
            *final(self) == (GameScene { projectiles: final(self).projectiles, ..*old(self) }),
    {
        let ghost pre = self.projectiles@;
        let ghost scene_pre = *self;
        let mut kept: Vec<Projectile> = Vec::new();
        let mut idx: usize = 0;
        while idx < self.projectiles.len()
            invariant
                *self == (GameScene { projectiles: self.projectiles, ..scene_pre }),
                self.projectiles@ == pre,
                0 <= idx <= pre.len(),
                kept@ =~= pre.subrange(0, idx as int).filter(|p: Projectile| p.active),
                forall|k: int|
                    0 <= k < kept@.len() ==> (#[trigger] kept@[k]).active && exists|j: int|
                        0 <= j < pre.len() && kept@[k] == pre[j],
            decreases pre.len() - idx,
        {
            let bolt = self.projectiles[idx];
            if bolt.active {
                kept.push(bolt);
            }
            proof {
                let sub1 = pre.subrange(0, idx + 1);
                assert(sub1.drop_last() =~= pre.subrange(0, idx as int));
                assert(sub1.last() == pre[idx as int]);
                reveal_with_fuel(Seq::filter, 2);
            }
            idx = idx + 1;
        }
        proof {
            assert(pre.subrange(0, pre.len() as int) =~= pre);
        }
        self.projectiles = kept;
    }
}

/// No projectile ever damages its own player: when every projectile in the
/// set is owned by a player, none of them can touch that player, whatever
/// the positions — the resolver's contract then leaves the player unchanged.
pub proof fn lemma_no_self_damage(projs: Seq<Projectile>, pl: Player)
    requires
        forall|j: int| 0 <= j < projs.len() ==> (#[trigger] projs[j]).owner_id == pl.input_id,
    ensures
        !hit_among(projs, projs.len() as int, pl),
{
    assert forall|j: int| 0 <= j < projs.len() implies !hit_cond(#[trigger] projs[j], pl) by {
        assert(projs[j].owner_id == pl.input_id);
    }
}

/// Test one live bolt against one player: the owner cannot hit themself, an
/// invincible player is skipped, and otherwise the bolt's circle is tested
/// against the hitbox. On a hit the damage (and on a kill, the score and
/// respawn) is applied.
fn try_hit_player(
    bolt_pos: Vec2,
    bolt_owner: usize,
    pl: &mut Player,
    data: &mut GameData,
    cam: Vec2,
) -> (hit: bool)
    requires
        old(pl).wf(),
        old(pl).hp >= 1,
        old(data).wf(),
        bolt_owner < 2,
        old(pl).hp == 1 && !old(pl).spec_is_invincible() && bolt_owner != old(pl).input_id ==> old(
            data,
        ).player_scores@[bolt_owner as int] < SCORE_LIMIT,
        -crate::projectile::PROJECTILE_POS_LIMIT <= bolt_pos.x
            <= crate::projectile::PROJECTILE_POS_LIMIT,
        -crate::projectile::PROJECTILE_POS_LIMIT <= bolt_pos.y
            <= crate::projectile::PROJECTILE_POS_LIMIT,
        cam.x == CAMERA_START_X,
        ROOFTOP_Y <= cam.y <= CAMERA_START_Y,
    ensures
        final(pl).wf(),
        final(pl).hp >= 1,
        final(data).wf(),
        hit == (bolt_owner != old(pl).input_id && !old(pl).spec_is_invincible()
            && crate::utils::circle_rec_hit(
            bolt_pos.x as int,
            bolt_pos.y as int,
            crate::projectile::PROJECTILE_RADIUS as int,
            old(pl).spec_rect(),
        )),
        hit ==> *final(pl) == projectile_damage(*old(pl), cam),
        !hit ==> *final(pl) == *old(pl),
        final(data).player_scores@ =~= if hit && old(pl).hp == 1 {
            old(data).player_scores@.update(
                bolt_owner as int,
                (old(data).player_scores@[bolt_owner as int] + 1) as u32,
            )
        } else {
            old(data).player_scores@
        },
        *final(data) == (GameData { player_scores: final(data).player_scores, ..*old(data) }),
{
    if bolt_owner == pl.input_id || pl.is_invincible() {
        return false;
    }
    let hit = crate::utils::check_collision_circle_rec(
        bolt_pos,
        crate::projectile::PROJECTILE_RADIUS,
        pl.rect(),
    );
    if hit {
        pl.hp = pl.hp - 1;
        pl.i_frame_timer = crate::player::HIT_IFRAMES_MS;
        pl.hit = true;
        if pl.hp <= 0 {
            let s = data.player_scores[bolt_owner];
            data.player_scores.set(bolt_owner, s + 1);
            pl.hp = crate::player::MAX_HP;
            pl.pos = Vec2 { x: cam.x, y: cam.y - RESPAWN_HEIGHT };
            pl.vel = Vec2 { x: 0, y: 0 };
        }
    }
    hit
}

/// `c + v * dt`, clamped into the world position bounds.
fn advance_coord(c: i64, v: i64, dt: i64) -> (r: i64)
    requires
        -POS_LIMIT <= c <= POS_LIMIT,
        -VEL_LIMIT <= v <= VEL_LIMIT,
        0 <= dt <= MAX_FRAME_MS,
    ensures
        r == clamp_pos(c + v * dt),
{
    proof {
        assert(-100_000_000_000_000 <= v * dt <= 100_000_000_000_000) by (nonlinear_arith)
            requires
                -VEL_LIMIT <= v <= VEL_LIMIT,
                0 <= dt <= MAX_FRAME_MS,
                VEL_LIMIT == 1_000_000_000_000,
                MAX_FRAME_MS == 100,
        ;
    }
    let moved: i64 = c + v * dt;
    if moved < -POS_LIMIT {
        -POS_LIMIT
    } else if moved > POS_LIMIT {
        POS_LIMIT
    } else {
        moved
    }
}

/// One player's kinematics for one frame: invincibility tick, gravity and
/// Euler integration, horizontal containment at the camera-relative view
/// edges, and the platform scan (grounded is recomputed from scratch).
fn move_player(
    pl: &mut Player,
    platforms: &Vec<Rect>,
    screen_width: i64,
    zoom_factor: i64,
    cam: Vec2,
    dt: i64,
) -> (r: ())
    requires
        old(pl).wf(),
        0 <= dt <= MAX_FRAME_MS,
        1 <= screen_width <= crate::game_data::SCREEN_LIMIT,
        1 <= zoom_factor <= ZOOM_LIMIT,
        cam.x == CAMERA_START_X,
        ROOFTOP_Y <= cam.y <= CAMERA_START_Y,
        forall|j: int|
            0 <= j < platforms@.len() ==> wf_platform(#[trigger] platforms@[j]) || platforms@[j]
                == roof_platform(),
    ensures
        final(pl).wf(),
        final(pl).hp == old(pl).hp,
        final(pl).input_id == old(pl).input_id,
        ({
            let half = screen_width * VIEW_SCALE / (zoom_factor as int);
            let a = old(pl).iframe_tick(dt as int);
            let b = integrate_step(a, dt as int);
            let c = clamp_step(b, cam.x - half, cam.x + half);
            *final(pl) == land_scan((Player { grounded: false, ..c }), platforms@, 0)
        }),
{
    pl.tick_invincibility(dt);

    // gravity, then Euler integration with a terminal-velocity cap
    let gstep: i64 = 2400 * dt;
    proof {
        assert((GRAVITY as int) / 1000 == 2400);
    }
    let vy: i64 = pl.vel.y + gstep;
    pl.vel.y = if vy > VEL_LIMIT {
        VEL_LIMIT
    } else {
        vy
    };
    let vx: i64 = pl.vel.x;
    pl.pos.x = advance_coord(pl.pos.x, vx, dt);
    pl.pos.y = advance_coord(pl.pos.y, pl.vel.y, dt);

    // screen boundary logic
    let half: i64 = screen_width * VIEW_SCALE / zoom_factor;
    let left_edge: i64 = cam.x - half;
    let right_edge: i64 = cam.x + half;
    if pl.pos.x < left_edge + EDGE_BUFFER {
        pl.pos.x = left_edge + EDGE_BUFFER;
        pl.vel.x = 0;
    }
    if pl.pos.x > right_edge - EDGE_BUFFER {
        pl.pos.x = right_edge - EDGE_BUFFER;
        pl.vel.x = 0;
    }

    // floor collisions: grounded is recomputed from scratch every frame
    pl.grounded = false;
    let ghost orig = *pl;
    let mut i: usize = 0;
    while i < platforms.len()
        invariant
            0 <= i <= platforms@.len(),
            land_scan(orig, platforms@, 0) == land_scan(*pl, platforms@, i as int),
            pl.wf(),
            pl.hp == orig.hp,
            pl.input_id == orig.input_id,
        decreases platforms@.len() - i,
    {
        let plat = platforms[i];
        if pl.vel.y > 0 && pl.pos.y >= plat.y && pl.pos.y <= plat.y + LAND_BAND && pl.pos.x
            + LAND_HALF_WIDTH > plat.x && pl.pos.x - LAND_HALF_WIDTH < plat.x + plat.width {
            pl.pos.y = plat.y;
            pl.vel.y = 0;
            pl.grounded = true;
        }
        i = i + 1;
    }
}

/// Hazard contact for one player: damage, knockback and invincibility while
/// vulnerable; a kill or a too-deep sink credits the opponent and respawns
/// the player above the camera.
fn apply_hazard(pl: &mut Player, data: &mut GameData, lava_y: i64, cam: Vec2)
    requires
        old(pl).wf(),
        old(pl).hp >= 1,
        old(data).wf(),
        LAVA_MIN <= lava_y <= LAVA_START,
        cam.x == CAMERA_START_X,
        ROOFTOP_Y <= cam.y <= CAMERA_START_Y,
        hazard_kills(*old(pl), lava_y as int) ==> old(data).player_scores@[1 - old(
            pl,
        ).input_id as int] < SCORE_LIMIT,
    ensures
        final(pl).wf(),
        final(pl).hp >= 1,
        final(data).wf(),
        *final(pl) == hazard_step(*old(pl), lava_y as int, cam),
        final(pl).input_id == old(pl).input_id,
        final(data).player_scores@ =~= if hazard_kills(*old(pl), lava_y as int) {
            old(data).player_scores@.update(
                1 - old(pl).input_id as int,
                (old(data).player_scores@[1 - old(pl).input_id as int] + 1) as u32,
            )
        } else {
            old(data).player_scores@
        },
        *final(data) == (GameData { player_scores: final(data).player_scores, ..*old(data) }),
{
    if pl.pos.y > lava_y {
        if !pl.is_invincible() {
            pl.hp = pl.hp - 1;
            pl.i_frame_timer = crate::player::HAZARD_IFRAMES_MS;
            pl.vel.y = HAZARD_KNOCKBACK;
            pl.hit = true;
        }
        if pl.hp <= 0 || pl.pos.y > lava_y + HAZARD_DEPTH {
            let opp: usize = if pl.input_id == 0 {
                1
            } else {
                0
            };
            let s = data.player_scores[opp];
            data.player_scores.set(opp, s + 1);
            pl.hp = crate::player::MAX_HP;
            pl.pos = Vec2 { x: cam.x, y: cam.y - RESPAWN_HEIGHT };
            pl.vel = Vec2 { x: 0, y: 0 };
        }
    }
}

/// Recycling keeps a well-formed platform well-formed.
proof fn lemma_recycle_platform_wf(p: Rect, bottom: int)
    requires
        wf_platform(p),
        LAVA_MIN + RECYCLE_MARGIN <= bottom,
    ensures
        wf_platform(recycle_platform(p, bottom)),
{
    if p.y > bottom {
        let y2 = p.y - TOWER_HEIGHT;
        let seed = (abs_int(y2) / (UNIT as int) + (p.x as int) / (UNIT as int)) * 17;
        assert(y2 % (UNIT as int) == 0 && abs_int(y2) / (UNIT as int) <= 16_000 && 0 <= seed
            <= 300_000 && (((seed % 1400) + 100) * UNIT) % (UNIT as int) == 0 && (((seed % 150)
            + 200) * UNIT) % (UNIT as int) == 0 && 100 * UNIT <= ((seed % 1400) + 100) * UNIT
            <= 1599 * UNIT && 200 * UNIT <= ((seed % 150) + 200) * UNIT <= 349 * UNIT)
            by (nonlinear_arith)
            requires
                (p.y as int) % (UNIT as int) == 0,
                100 * UNIT <= p.x <= 1599 * UNIT,
                (p.x as int) % (UNIT as int) == 0,
                PLATFORM_Y_MIN <= p.y <= GEN_TOP_Y,
                LAVA_MIN + RECYCLE_MARGIN <= bottom < p.y,
                y2 == p.y - TOWER_HEIGHT,
                seed == (abs_int(y2) / (UNIT as int) + (p.x as int) / (UNIT as int)) * 17,
                UNIT == 1_000_000,
                TOWER_HEIGHT == 7200 * UNIT,
                GEN_TOP_Y == 1000 * UNIT,
                PLATFORM_Y_MIN == LAVA_MIN + RECYCLE_MARGIN - TOWER_HEIGHT,
        ;
    }
}

/// Recycle every platform fallen below `bottom_limit`; the count is
/// untouched, and each platform maps pointwise through `recycle_platform`.
fn recycle_all(platforms: &mut Vec<Rect>, bottom_limit: i64)
    requires
        LAVA_MIN + RECYCLE_MARGIN <= bottom_limit <= LAVA_START + RECYCLE_MARGIN,
        forall|k: int|
            0 <= k < old(platforms)@.len() ==> wf_platform(#[trigger] old(platforms)@[k]) || old(
                platforms,
            )@[k] == roof_platform(),
    ensures
        final(platforms)@.len() == old(platforms)@.len(),
        forall|k: int|
            0 <= k < old(platforms)@.len() ==> final(platforms)@[k] == recycle_platform(
                #[trigger] old(platforms)@[k],
                bottom_limit as int,
            ),
        forall|k: int|
            0 <= k < final(platforms)@.len() ==> wf_platform(#[trigger] final(platforms)@[k])
                || final(platforms)@[k] == roof_platform(),
        forall|k: int|
            0 <= k < old(platforms)@.len() && wf_platform(#[trigger] old(platforms)@[k])
                ==> wf_platform(final(platforms)@[k]),
{
    let ghost platforms_pre = platforms@;
    let mut idx: usize = 0;
    while idx < platforms.len()
        invariant
            platforms@.len() == platforms_pre.len(),
            0 <= idx <= platforms@.len(),
            forall|k: int|
                0 <= k < idx ==> platforms@[k] == recycle_platform(
                    #[trigger] platforms_pre[k],
                    bottom_limit as int,
                ),
            forall|k: int|
                idx <= k < platforms_pre.len() ==> #[trigger] platforms@[k] == platforms_pre[k],
            forall|k: int|
                0 <= k < idx ==> wf_platform(#[trigger] platforms@[k]) || platforms@[k]
                    == roof_platform(),
            forall|k: int|
                0 <= k < idx && wf_platform(#[trigger] platforms_pre[k]) ==> wf_platform(
                    platforms@[k],
                ),
        decreases platforms@.len() - idx,
    {
        let plat = platforms[idx];
        if plat.y > bottom_limit {
            proof {
                // the rooftop platform never sits below the hazard line, so
                // past the transition this branch is unreachable
                assert(roof_platform().y < bottom_limit);
                assert(wf_platform(platforms_pre[idx as int]));
                lemma_recycle_platform_wf(platforms_pre[idx as int], bottom_limit as int);
            }
            let y2: i64 = plat.y - TOWER_HEIGHT;
            let y_abs: i64 = if y2 < 0 {
                -y2
            } else {
                y2
            };
            let seed: i64 = (y_abs / UNIT + plat.x / UNIT) * 17;
            let new_x_units: i64 = (seed % 1400) + 100;
            let new_w_units: i64 = (seed % 150) + 200;
            let recycled = Rect {
                x: new_x_units * UNIT,
                y: y2,
                width: new_w_units * UNIT,
                height: plat.height,
            };
            proof {
                assert(y_abs == abs_int(y2 as int));
                assert(0 <= y_abs / UNIT <= 16_000 && 0 <= plat.x / UNIT <= 1599);
                assert(recycled == recycle_platform(
                    platforms_pre[idx as int],
                    bottom_limit as int,
                ));
            }
            platforms.set(idx, recycled);
        }
        idx = idx + 1;
    }
}

} // verus!
