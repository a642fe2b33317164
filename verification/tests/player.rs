//! Player tests: the animation priority table, the frame-advance rules with
//! the single-shot attack latch, input application, and the timer clamps.

use wizard_duel::UNIT;
use wizard_duel::geom::Vec2;
use wizard_duel::player::{
    AnimationState, Player, PlayerIntent, JUMP_VELOCITY, MAX_HP, SHOOT_COOLDOWN_MS,
};

fn base_player() -> Player {
    Player::new(0, 600 * UNIT, 800 * UNIT)
}

#[test]
fn new_player_defaults() {
    let p = base_player();
    assert_eq!(p.hp, MAX_HP);
    assert_eq!(p.anim_frame, 0);
    assert!(!p.is_invincible());
    assert!(matches!(p.anim_state, AnimationState::Idle));
}

#[test]
fn anim_priority_table_is_total() {
    // every combination of {hit, shooting, grounded, vel.x} follows the
    // fixed priority order
    for hit in [false, true] {
        for shooting in [false, true] {
            for grounded in [false, true] {
                for vx in [-350_000i64, 0, 350_000] {
                    let mut p = base_player();
                    p.hit = hit;
                    p.shooting = shooting;
                    p.grounded = grounded;
                    p.vel.x = vx;
                    let expected = if hit {
                        AnimationState::Hurt
                    } else if shooting {
                        AnimationState::Shoot
                    } else if !grounded {
                        AnimationState::Jump
                    } else if vx != 0 {
                        AnimationState::Run
                    } else {
                        AnimationState::Idle
                    };
                    assert_eq!(p.determine_anim_state(), expected);
                }
            }
        }
    }
}

#[test]
fn transition_resets_frame_and_rearms_attack() {
    let mut p = base_player();
    p.anim_frame = 4;
    p.anim_timer = 90;
    p.shooting = true;
    p.attack_fired = true;
    p.apply_anim_transition();
    assert!(matches!(p.anim_state, AnimationState::Shoot));
    assert_eq!(p.anim_frame, 0);
    assert_eq!(p.anim_timer, 0);
    assert!(!p.attack_fired);
}

#[test]
fn run_animation_wraps() {
    let mut p = base_player();
    p.grounded = true;
    p.vel.x = 350_000;
    p.apply_anim_transition();
    assert!(matches!(p.anim_state, AnimationState::Run));
    for expected_frame in [1usize, 2, 3, 4, 0, 1] {
        // two 100 ms ticks pass one 100 ms frame period
        let fired = p.advance_animation(5, 100);
        assert!(!fired);
        let fired = p.advance_animation(5, 100);
        assert!(!fired);
        assert_eq!(p.anim_frame, expected_frame);
    }
}

#[test]
fn jump_holds_last_frame() {
    let mut p = base_player();
    p.apply_anim_transition();
    assert!(matches!(p.anim_state, AnimationState::Jump));
    for _ in 0..20 {
        p.advance_animation(3, 100);
    }
    assert_eq!(p.anim_frame, 2);
}

#[test]
fn hurt_holds_then_clears_hit_flag() {
    let mut p = base_player();
    p.hit = true;
    p.apply_anim_transition();
    assert!(matches!(p.anim_state, AnimationState::Hurt));
    for _ in 0..4 {
        p.advance_animation(3, 100);
    }
    assert!(p.hit);
    assert_eq!(p.anim_frame, 2);
    // the next frame advance past the last frame clears the hit flag
    for _ in 0..2 {
        p.advance_animation(3, 100);
    }
    assert!(!p.hit);
}

#[test]
fn shoot_fires_exactly_once_per_cycle() {
    // a shoot animation of 3 frames, release frame at index 2
    let mut p = base_player();
    p.shooting = true;
    p.apply_anim_transition();
    assert!(matches!(p.anim_state, AnimationState::Shoot));
    assert!(!p.attack_fired);
    let mut fires = 0;
    for _ in 0..40 {
        if p.advance_animation(3, 100) {
            fires += 1;
            assert!(p.attack_fired);
        }
        if !p.shooting {
            break;
        }
    }
    assert_eq!(fires, 1);
    assert!(!p.shooting);
    assert_eq!(p.anim_frame, 0);
}

#[test]
fn shoot_release_frame_without_reset_fires_nothing_more() {
    let mut p = base_player();
    p.shooting = true;
    p.anim_state = AnimationState::Shoot;
    p.anim_frame = 2;
    p.attack_fired = true;
    // the latch is set: repeated ticks at the release frame spawn nothing
    for _ in 0..10 {
        let fired = p.advance_animation(3, 100);
        assert!(!fired);
        p.anim_frame = 2;
    }
}

#[test]
fn intent_moves_jumps_and_shoots() {
    let mut p = base_player();
    p.grounded = true;
    let intent = PlayerIntent {
        move_axis: -1000,
        jump_pressed: true,
        shoot_pressed: true,
        aim: Some(Vec2::new(0, -1000)),
    };
    p.apply_intent(&intent, 16);
    assert_eq!(p.vel.x, -350_000);
    assert_eq!(p.vel.y, JUMP_VELOCITY);
    assert!(!p.grounded);
    assert!(p.facing_left);
    assert_eq!(p.aim, Vec2::new(0, -1000));
    assert!(p.shooting);
    assert_eq!(p.shoot_timer, SHOOT_COOLDOWN_MS);

    // the cooldown blocks a second shot until it has fully elapsed
    let intent2 = PlayerIntent { move_axis: 0, jump_pressed: false, shoot_pressed: true, aim: None };
    p.shooting = false;
    p.apply_intent(&intent2, 100);
    assert!(!p.shooting);
    for _ in 0..7 {
        p.apply_intent(&intent2, 100);
    }
    assert!(p.shooting);
}

#[test]
fn jump_needs_ground() {
    let mut p = base_player();
    p.grounded = false;
    let vy = p.vel.y;
    let intent = PlayerIntent { move_axis: 0, jump_pressed: true, shoot_pressed: false, aim: None };
    p.apply_intent(&intent, 16);
    assert_eq!(p.vel.y, vy);
}

#[test]
fn invincibility_timer_never_negative() {
    let mut p = base_player();
    p.i_frame_timer = 250;
    let mut last = p.i_frame_timer;
    for _ in 0..10 {
        p.tick_invincibility(100);
        assert!(p.i_frame_timer <= last);
        assert!(p.i_frame_timer >= 0);
        last = p.i_frame_timer;
    }
    assert_eq!(p.i_frame_timer, 0);
    assert!(!p.is_invincible());
}

#[test]
fn hitbox_and_staff_follow_position() {
    let p = base_player();
    let r = p.rect();
    assert_eq!(r.x, p.pos.x - 35 * UNIT);
    assert_eq!(r.y, p.pos.y - 80 * UNIT);
    assert_eq!(r.width, 50 * UNIT);
    assert_eq!(r.height, 80 * UNIT);

    let staff = p.staff_position();
    assert_eq!(staff.x, p.pos.x + 64 * UNIT * 45 / 100);
    assert_eq!(staff.y, p.pos.y - 128 * UNIT * 65 / 100);

    let mut q = p;
    q.facing_left = true;
    let staff_left = q.staff_position();
    assert_eq!(staff_left.x, p.pos.x - 64 * UNIT * 45 / 100);
}
