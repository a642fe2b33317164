//! Match-level tests: the procedural tower, scrolling and its cap, platform
//! recycling, the rooftop transition, projectile lifecycle, damage and
//! scoring (no self-damage, hazard kills), and the scene sequencing.

use wizard_duel::UNIT;
use wizard_duel::game_data::{AnimFrameCounts, GameData, WIN_SCORE};
use wizard_duel::game_scene::{
    GameScene, CAMERA_START_X, CAMERA_START_Y, LAVA_START, ROOFTOP_Y, SCROLL_CAP, SCROLL_START,
};
use wizard_duel::geom::Vec2;
use wizard_duel::player::PlayerIntent;
use wizard_duel::projectile::Projectile;
use wizard_duel::scenes::{ActiveScene, Director, FrameInput, SceneId, SceneSwitch};
use wizard_duel::win_scene::WinScene;

fn frames() -> AnimFrameCounts {
    AnimFrameCounts { idle: 5, run: 5, jump: 5, shoot: 5, hurt: 5 }
}

fn fresh_data() -> GameData {
    GameData::new(2304, 1296, 1000, frames(), frames())
}

fn fresh_scene() -> GameScene {
    GameScene::new(0, 2304, 1296, 1000)
}

fn idle_input() -> FrameInput {
    FrameInput {
        start_pressed: false,
        confirm_pressed: false,
        intents: [PlayerIntent::none(), PlayerIntent::none()],
    }
}

#[test]
fn tower_layout_is_deterministic() {
    let scene = fresh_scene();
    assert_eq!(scene.platforms.len(), 135);

    // row 0, column 0: seed 0 gives width 200 at x 100, y 1000
    let first = scene.platforms[0];
    assert_eq!(first.x, 100 * UNIT);
    assert_eq!(first.y, 1000 * UNIT);
    assert_eq!(first.width, 200 * UNIT);
    assert_eq!(first.height, 40 * UNIT);

    // row 1, column 2: seed 75, width 200 + 75, x (75*617) % 1500 + 100
    let plat = scene.platforms[5];
    assert_eq!(plat.width, 275 * UNIT);
    assert_eq!(plat.x, ((75 * 617) % 1500 + 100) * UNIT);
    assert_eq!(plat.y, 840 * UNIT);

    // the layout is a pure function of the indices
    let again = fresh_scene();
    for k in 0..135 {
        assert_eq!(scene.platforms[k], again.platforms[k]);
    }
}

#[test]
fn scene_starts_as_specified() {
    let scene = fresh_scene();
    assert_eq!(scene.scroll_speed, SCROLL_START);
    assert_eq!(scene.lava_y, LAVA_START);
    assert!(!scene.is_on_rooftop);
    assert_eq!(scene.camera_target, Vec2::new(CAMERA_START_X, CAMERA_START_Y));
    assert_eq!(scene.players.len(), 2);
    assert_eq!(scene.players[0].pos, Vec2::new(600 * UNIT, 800 * UNIT));
    assert_eq!(scene.players[1].pos, Vec2::new(1320 * UNIT, 800 * UNIT));
    assert!(scene.projectiles.is_empty());
}

#[test]
fn scroll_speed_compounds_and_caps() {
    let mut scene = fresh_scene();

    // one 16 ms frame: 60000 + 60000*9*16/100000 exactly
    scene.update_world(16);
    assert_eq!(scene.scroll_speed, 60_086);
    // and once more on the grown speed
    scene.update_world(16);
    assert_eq!(scene.scroll_speed, 60_086 + 60_086 * 9 * 16 / 100_000);

    // ten seconds of 16 ms frames: close to 60 * 1.09^10 units/s,
    // compounded per frame, and far below the cap
    let mut scene = fresh_scene();
    for _ in 0..625 {
        scene.update_world(16);
    }
    let reference = 60.0_f64 * 1.09_f64.powi(10);
    let speed_units = scene.scroll_speed as f64 / 1000.0;
    assert!(speed_units > reference * 0.95, "speed {speed_units} vs {reference}");
    assert!(speed_units < reference * 1.10, "speed {speed_units} vs {reference}");
    assert!(scene.scroll_speed < SCROLL_CAP);

    // sixty seconds in, the cap has long been reached, exactly
    for _ in 0..3125 {
        scene.update_world(16);
    }
    assert_eq!(scene.scroll_speed, SCROLL_CAP);
}

#[test]
fn recycling_preserves_platform_count() {
    let mut scene = fresh_scene();
    let mut saw_recycle = false;
    for _ in 0..1500 {
        let before: Vec<_> = scene.platforms.clone();
        scene.update_world(16);
        if scene.is_on_rooftop {
            break;
        }
        assert_eq!(scene.platforms.len(), 135);
        for k in 0..135 {
            let old = before[k];
            let new = scene.platforms[k];
            // only position and width mutate; the height never does
            assert_eq!(new.height, old.height);
            if new.y != old.y {
                saw_recycle = true;
                assert_eq!(new.y, old.y - 7200 * UNIT);
            }
        }
    }
    assert!(saw_recycle, "the scroll never recycled a platform");
}

#[test]
fn rooftop_transition_is_permanent_and_swaps_platforms() {
    let mut scene = fresh_scene();
    for _ in 0..20_000 {
        scene.update_world(16);
        if scene.is_on_rooftop {
            break;
        }
    }
    assert!(scene.is_on_rooftop);
    assert_eq!(scene.camera_target.y, ROOFTOP_Y);
    assert_eq!(scene.platforms.len(), 1);
    let roof = scene.platforms[0];
    assert_eq!(roof.x, -5000 * UNIT);
    assert_eq!(roof.y, ROOFTOP_Y + 400 * UNIT);
    assert_eq!(roof.width, 10_000 * UNIT);

    // scrolling is over: nothing moves any more
    let speed = scene.scroll_speed;
    let lava = scene.lava_y;
    scene.update_world(16);
    assert!(scene.is_on_rooftop);
    assert_eq!(scene.scroll_speed, speed);
    assert_eq!(scene.lava_y, lava);
    assert_eq!(scene.camera_target.y, ROOFTOP_Y);
}

#[test]
fn projectile_flies_and_despawns_out_of_bounds() {
    let mut bolt = Projectile::new(Vec2::new(2400 * UNIT, 0), Vec2::new(800_000, 0), 0);
    bolt.update(100);
    // 800 units/s for 100 ms moves 80 units
    assert_eq!(bolt.pos.x, 2480 * UNIT);
    assert!(bolt.active);
    bolt.update(100);
    assert_eq!(bolt.pos.x, 2560 * UNIT);
    assert!(!bolt.active, "outside the 2500-unit bound the bolt despawns");
}

#[test]
fn faster_projectile_despawns_past_right_bound() {
    // a bolt faster than the spawn speed flies just as well
    let mut bolt = Projectile::new(Vec2::new(2400 * UNIT, 0), Vec2::new(1_000_000, 0), 0);
    bolt.update(100);
    // 1000 units/s for 100 ms moves 100 units; 2500 sits on the bound
    assert_eq!(bolt.pos.x, 2500 * UNIT);
    assert!(bolt.active);
    bolt.update(100);
    assert_eq!(bolt.pos.x, 2600 * UNIT);
    assert!(!bolt.active, "past the 2500-unit bound the bolt despawns");
}

#[test]
fn own_projectile_never_damages_its_owner() {
    let mut scene = fresh_scene();
    let mut data = fresh_data();
    // a bolt owned by player 0 sitting right on player 0's hitbox
    let on_p0 = Vec2::new(scene.players[0].pos.x, scene.players[0].pos.y - 40 * UNIT);
    scene.projectiles.push(Projectile::new(on_p0, Vec2::new(0, 0), 0));
    scene.resolve_projectile_hits(&mut data);
    assert_eq!(scene.players[0].hp, 3);
    assert!(!scene.players[0].hit);
    assert!(scene.projectiles[0].active);
    assert_eq!(data.player_scores, vec![0, 0]);
}

#[test]
fn opposing_projectile_damages_and_grants_iframes() {
    let mut scene = fresh_scene();
    let mut data = fresh_data();
    let on_p0 = Vec2::new(scene.players[0].pos.x, scene.players[0].pos.y - 40 * UNIT);
    scene.projectiles.push(Projectile::new(on_p0, Vec2::new(0, 0), 1));
    // a second overlapping bolt in the same frame must not double-hit
    scene.projectiles.push(Projectile::new(on_p0, Vec2::new(0, 0), 1));
    scene.resolve_projectile_hits(&mut data);
    assert_eq!(scene.players[0].hp, 2);
    assert!(scene.players[0].hit);
    assert!(scene.players[0].is_invincible());
    assert!(!scene.projectiles[0].active);
    assert!(scene.projectiles[1].active, "the second bolt found no vulnerable target");
    assert_eq!(data.player_scores, vec![0, 0]);
}

#[test]
fn projectile_kill_scores_resets_and_respawns() {
    let mut scene = fresh_scene();
    let mut data = fresh_data();
    scene.players[0].hp = 1;
    let on_p0 = Vec2::new(scene.players[0].pos.x, scene.players[0].pos.y - 40 * UNIT);
    scene.projectiles.push(Projectile::new(on_p0, Vec2::new(0, 0), 1));
    scene.resolve_projectile_hits(&mut data);
    assert_eq!(data.player_scores, vec![0, 1]);
    assert_eq!(scene.players[0].hp, 3);
    assert_eq!(scene.players[0].pos.x, scene.camera_target.x);
    assert_eq!(scene.players[0].pos.y, scene.camera_target.y - 400 * UNIT);
    assert_eq!(scene.players[0].vel, Vec2::new(0, 0));
}

#[test]
fn hazard_kill_scenario() {
    // player at hp 1 takes a hazard hit while not invincible: the opponent
    // scores exactly one point, hp resets to 3, and the player respawns at
    // (camera.x, camera.y - 400)
    let mut scene = fresh_scene();
    let mut data = fresh_data();
    scene.players[0].hp = 1;
    scene.players[0].pos.y = scene.lava_y + 50 * UNIT;
    let switch = scene.update(16, &mut data);
    assert_eq!(data.player_scores, vec![0, 1]);
    assert_eq!(scene.players[0].hp, 3);
    assert_eq!(scene.players[0].pos.x, scene.camera_target.x);
    assert_eq!(scene.players[0].pos.y, scene.camera_target.y - 400 * UNIT);
    assert_eq!(scene.players[0].vel, Vec2::new(0, 0));
    assert!(matches!(switch, SceneSwitch::Stay));
}

#[test]
fn hazard_grazing_knocks_back_once() {
    let mut scene = fresh_scene();
    let mut data = fresh_data();
    scene.players[1].pos.y = scene.lava_y + 50 * UNIT;
    scene.update(16, &mut data);
    assert_eq!(scene.players[1].hp, 2);
    assert!(scene.players[1].is_invincible());
    assert_eq!(scene.players[1].vel.y, -650_000);
    assert_eq!(data.player_scores, vec![0, 0]);

    // still above the lava next frame, but the invincibility window holds
    let hp = scene.players[1].hp;
    scene.update(16, &mut data);
    assert_eq!(scene.players[1].hp, hp);
}

#[test]
fn players_land_on_platforms_and_hp_stays_in_range() {
    let mut scene = fresh_scene();
    let mut data = fresh_data();
    for _ in 0..600 {
        scene.update(16, &mut data);
        for p in &scene.players {
            assert!(0 <= p.hp && p.hp <= 3);
            assert!(p.i_frame_timer >= 0);
        }
    }
}

#[test]
fn win_fires_exactly_at_threshold() {
    let mut scene = fresh_scene();
    let mut data = fresh_data();
    data.player_scores[1] = 4;
    scene.players[0].hp = 1;
    scene.players[0].pos.y = scene.lava_y + 50 * UNIT;
    let switch = scene.update(16, &mut data);
    assert_eq!(data.player_scores, vec![0, 5]);
    assert!(matches!(switch, SceneSwitch::Push(SceneId::Win)));
}

#[test]
fn attack_spawns_one_projectile_at_the_staff() {
    let mut scene = fresh_scene();
    let mut data = fresh_data();
    let shoot = PlayerIntent {
        move_axis: 0,
        jump_pressed: false,
        shoot_pressed: true,
        aim: Some(Vec2::new(1000, 0)),
    };
    let hold = [shoot, PlayerIntent::none()];
    scene.handle_input(&hold, 16);
    assert!(scene.players[0].shooting);

    // play the attack through: over the whole cycle exactly one bolt
    // appears, owned by the attacker, flying along the aim
    let mut seen: usize = 0;
    for _ in 0..200 {
        let before = scene.projectiles.len();
        scene.update(16, &mut data);
        if scene.projectiles.len() > before {
            seen += scene.projectiles.len() - before;
            let bolt = scene.projectiles[scene.projectiles.len() - 1];
            assert_eq!(bolt.owner_id, 0);
            assert_eq!(bolt.vel, Vec2::new(800_000, 0));
        }
    }
    assert_eq!(seen, 1, "one attack cycle spawns exactly one projectile");
}

#[test]
fn movement_intent_moves_the_player() {
    let mut scene = fresh_scene();
    let mut data = fresh_data();
    let run_right = [
        PlayerIntent { move_axis: 1000, jump_pressed: false, shoot_pressed: false, aim: None },
        PlayerIntent::none(),
    ];
    let x0 = scene.players[0].pos.x;
    scene.handle_input(&run_right, 16);
    assert_eq!(scene.players[0].vel.x, 350_000);
    assert!(!scene.players[0].facing_left);
    scene.update(16, &mut data);
    // 350 units/s for 16 ms moves 5.6 units
    assert_eq!(scene.players[0].pos.x, x0 + 5_600_000);
}

#[test]
fn menu_start_resets_scores_and_begins_match() {
    let mut director = Director::new();
    let mut data = fresh_data();
    data.player_scores = vec![3, 2];
    let mut input = idle_input();
    input.start_pressed = true;
    let keep = director.frame(&input, 16, &mut data);
    assert!(keep);
    assert_eq!(data.player_scores, vec![0, 0]);
    assert!(matches!(director.scenes.last(), Some(ActiveScene::Game(_))));
}

#[test]
fn win_screen_freezes_scores_until_confirm() {
    let mut director = Director::new();
    director.scenes.push(ActiveScene::Win(WinScene));
    let mut data = fresh_data();
    data.player_scores = vec![5, 2];

    // no further score movement while the win screen is up
    for _ in 0..5 {
        director.frame(&idle_input(), 16, &mut data);
        assert_eq!(data.player_scores, vec![5, 2]);
        assert!(matches!(director.scenes.last(), Some(ActiveScene::Win(_))));
    }

    // confirm returns to the menu, scores still untouched
    let mut input = idle_input();
    input.confirm_pressed = true;
    director.frame(&input, 16, &mut data);
    assert_eq!(data.player_scores, vec![5, 2]);
    assert!(matches!(director.scenes.last(), Some(ActiveScene::Menu(_))));
}

#[test]
fn winner_names_the_player_at_threshold() {
    let win = WinScene;
    let mut data = fresh_data();
    data.player_scores = vec![WIN_SCORE, 1];
    assert_eq!(win.winner(&data), 0);
    data.player_scores = vec![2, WIN_SCORE];
    assert_eq!(win.winner(&data), 1);
}

#[test]
fn score_helper_guards_the_index() {
    let mut data = fresh_data();
    data.score(1);
    data.score(1);
    data.score(7);
    assert_eq!(data.player_scores, vec![0, 2]);
}

#[test]
fn full_session_reaches_the_win_screen() {
    let mut director = Director::new();
    let mut data = fresh_data();
    let mut input = idle_input();
    input.start_pressed = true;
    director.frame(&input, 16, &mut data);

    // nobody moves: the lava eventually claims both players repeatedly
    // until one side collects the winning score
    let mut frames_run = 0;
    while !matches!(director.scenes.last(), Some(ActiveScene::Win(_))) {
        director.frame(&idle_input(), 16, &mut data);
        frames_run += 1;
        assert!(frames_run < 200_000, "no win screen after {frames_run} frames");
    }
    let p0 = data.player_scores[0];
    let p1 = data.player_scores[1];
    assert!(p0 == WIN_SCORE || p1 == WIN_SCORE);
    assert!(p0 <= WIN_SCORE && p1 <= WIN_SCORE);
}
