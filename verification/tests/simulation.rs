//! End-to-end tests of the simulation core on concrete values.

use arena_sim::constants::{
    BULLET_SPAWN_INTERVAL, ENEMY_SPAWN_RATE, MAX_ENEMY_AMOUNT, NUM_WORLD_DECORATIONS, WORLD_H,
    WORLD_W,
};
use arena_sim::entities::{
    Bullet, Camera, Enemy, Game, GameState, Gun, InputState, KeyboardState, Player,
};
use arena_sim::vec2::Vec2;

fn no_keys() -> KeyboardState {
    KeyboardState {
        key_w: false,
        key_a: false,
        key_s: false,
        key_d: false,
        arrow_up: false,
        arrow_down: false,
        arrow_left: false,
        arrow_right: false,
    }
}

fn idle_input() -> InputState {
    InputState { keyboard: no_keys(), fire_button: false, cursor_world: None }
}

fn in_game() -> Game {
    let mut g = Game::new();
    g.assets_loaded();
    g.init_world();
    g
}

#[test]
fn lifecycle_reaches_in_game() {
    let mut g = Game::new();
    assert_eq!(g.state, GameState::Loading);
    g.tick(&idle_input(), 16_666);
    assert_eq!(g.state, GameState::Loading);
    g.assets_loaded();
    assert_eq!(g.state, GameState::GameInit);
    g.tick(&idle_input(), 16_666);
    assert_eq!(g.state, GameState::InGame);
    assert!(g.store.player.is_some());
    assert!(g.store.gun.is_some());
    assert!(g.store.camera.is_some());
    assert_eq!(g.store.decorations.len(), NUM_WORLD_DECORATIONS);
}

#[test]
fn lifecycle_never_regresses() {
    let mut g = in_game();
    g.assets_loaded();
    assert_eq!(g.state, GameState::InGame);
    g.init_world();
    assert_eq!(g.state, GameState::InGame);
}

#[test]
fn decorations_land_in_world_rect_with_valid_sprites() {
    let g = in_game();
    assert_eq!(g.store.decorations.len(), NUM_WORLD_DECORATIONS);
    for d in g.store.decorations.iter() {
        assert!(-WORLD_W <= d.pos.x && d.pos.x <= WORLD_W);
        assert!(-WORLD_H <= d.pos.y && d.pos.y <= WORLD_H);
        assert!(d.sprite_index == 12 || d.sprite_index == 13);
    }
}

#[test]
fn single_axis_movement_is_exactly_speed() {
    let mut g = in_game();
    let mut k = no_keys();
    k.key_d = true;
    g.handle_player_movement_input(&k);
    let p = g.store.player.unwrap();
    assert_eq!(p.pos.x, 2000);
    assert_eq!(p.pos.y, 0);
    // The arrow binding moves the same axis identically.
    let mut g2 = in_game();
    let mut k2 = no_keys();
    k2.arrow_right = true;
    g2.handle_player_movement_input(&k2);
    assert_eq!(g2.store.player.unwrap().pos, p.pos);
}

#[test]
fn diagonal_movement_is_normalized_not_sqrt2() {
    let mut g = in_game();
    let mut k = no_keys();
    k.key_d = true;
    k.key_w = true;
    g.handle_player_movement_input(&k);
    let p = g.store.player.unwrap();
    // 1414 = floor(2000 / sqrt(2)); a naive diagonal would be (2000, 2000).
    assert_eq!(p.pos.x, 1414);
    assert_eq!(p.pos.y, 1414);
    let sq = p.pos.x * p.pos.x + p.pos.y * p.pos.y;
    assert!(sq <= 2000 * 2000);
    assert!(2000 * 2000 < 2 * 1415 * 1415);
}

#[test]
fn opposed_keys_cancel() {
    let mut g = in_game();
    let mut k = no_keys();
    k.key_a = true;
    k.arrow_right = true;
    k.key_w = true;
    g.handle_player_movement_input(&k);
    let p = g.store.player.unwrap();
    assert_eq!(p.pos.x, 0);
    assert_eq!(p.pos.y, 2000);
}

#[test]
fn gun_aims_at_cursor_on_positive_x_axis() {
    // Player at the origin, cursor one world unit along +x: aim angle 0,
    // gun exactly at (radius, 0).
    let mut g = in_game();
    g.update_cursor_position(Some(Vec2 { x: 1000, y: 0 }));
    g.update_gun_transform();
    let gun = g.store.gun.unwrap();
    assert_eq!(gun.pos.x, 50_000);
    assert_eq!(gun.pos.y, 0);
    assert_eq!(gun.aim.x, 1000);
    assert_eq!(gun.aim.y, 0);
}

#[test]
fn gun_orbits_at_exact_radius_on_pythagorean_aim() {
    let mut g = in_game();
    // Cursor at (300, 400) world units: a 3-4-5 direction, so the scaled
    // offset is exact: (30, 40) units, at distance exactly 50 units.
    g.update_cursor_position(Some(Vec2 { x: 300_000, y: 400_000 }));
    g.update_gun_transform();
    let gun = g.store.gun.unwrap();
    assert_eq!(gun.pos.x, 30_000);
    assert_eq!(gun.pos.y, 40_000);
    let dist_sq = gun.pos.x * gun.pos.x + gun.pos.y * gun.pos.y;
    assert_eq!(dist_sq, 50_000i64 * 50_000);
    assert_eq!(gun.aim.x, 600);
    assert_eq!(gun.aim.y, 800);
}

#[test]
fn gun_keeps_orientation_without_cursor() {
    let mut g = in_game();
    g.update_cursor_position(Some(Vec2 { x: 0, y: 1000 }));
    g.update_gun_transform();
    let before = g.store.gun.unwrap();
    g.update_cursor_position(None);
    g.update_gun_transform();
    let after = g.store.gun.unwrap();
    assert_eq!(after, before);
}

#[test]
fn gun_keeps_orientation_when_cursor_sits_on_player() {
    let mut g = in_game();
    let before = g.store.gun.unwrap();
    g.update_cursor_position(Some(Vec2 { x: 0, y: 0 }));
    g.update_gun_transform();
    assert_eq!(g.store.gun.unwrap(), before);
}

#[test]
fn holding_fire_produces_floor_t_over_interval_bullets() {
    let mut g = in_game();
    // 10 ticks of 25 ms each while holding: T = 250 ms, interval 50 ms,
    // so exactly 5 bullets.
    for _ in 0..10 {
        g.handle_player_fire_input(25_000, true);
    }
    assert_eq!(g.store.bullets.len(), (10 * 25_000 / BULLET_SPAWN_INTERVAL) as usize);
    assert_eq!(g.store.bullets.len(), 5);
}

#[test]
fn bullets_carry_the_gun_facing_at_spawn() {
    let mut g = in_game();
    g.update_cursor_position(Some(Vec2 { x: 300_000, y: 400_000 }));
    g.update_gun_transform();
    g.handle_player_fire_input(BULLET_SPAWN_INTERVAL, true);
    assert_eq!(g.store.bullets.len(), 1);
    let gun = g.store.gun.unwrap();
    assert_eq!(g.store.bullets[0].pos, gun.pos);
    assert_eq!(g.store.bullets[0].dir, gun.aim);
    assert_eq!(g.store.bullets[0].dir, Vec2 { x: 600, y: 800 });
}

#[test]
fn cooldown_accumulates_while_released_and_fires_on_press() {
    let mut g = in_game();
    // The cooldown keeps running while the button is up ...
    g.handle_player_fire_input(BULLET_SPAWN_INTERVAL, false);
    assert_eq!(g.store.bullets.len(), 0);
    // ... so a press after the interval has elapsed fires immediately.
    g.handle_player_fire_input(0, true);
    assert_eq!(g.store.bullets.len(), 1);
    assert_eq!(g.store.gun.unwrap().fire_timer, 0);
}

#[test]
fn fire_below_interval_spawns_nothing() {
    let mut g = in_game();
    g.handle_player_fire_input(BULLET_SPAWN_INTERVAL - 1, true);
    assert_eq!(g.store.bullets.len(), 0);
    assert_eq!(g.store.gun.unwrap().fire_timer, BULLET_SPAWN_INTERVAL - 1);
}

#[test]
fn bullet_advances_by_speed_and_keeps_direction() {
    let mut g = in_game();
    g.store.bullets.push(Bullet { pos: Vec2 { x: 0, y: 0 }, dir: Vec2 { x: 600, y: 800 } });
    g.update_bullets();
    let b = g.store.bullets[0];
    // (600, 800) is unit-scale (norm 1000), so the step is exact:
    // 10 units along a 3-4-5 direction.
    assert_eq!(b.pos, Vec2 { x: 6000, y: 8000 });
    assert_eq!(b.dir, Vec2 { x: 600, y: 800 });
    g.update_bullets();
    assert_eq!(g.store.bullets[0].pos, Vec2 { x: 12_000, y: 16_000 });
}

#[test]
fn enemy_chases_player_by_exactly_enemy_speed() {
    // Enemy at (10, 0) world units, player at the origin: it closes in by
    // exactly 1 unit this tick.
    let mut g = Game::new();
    g.store.player = Some(Player { pos: Vec2 { x: 0, y: 0 } });
    g.store.enemies.push(Enemy { pos: Vec2 { x: 10_000, y: 0 } });
    g.update_enemy_transform();
    assert_eq!(g.store.enemies[0].pos.x, 9000);
    assert_eq!(g.store.enemies[0].pos.y, 0);
}

#[test]
fn enemy_on_player_stays_put_for_the_tick() {
    let mut g = Game::new();
    g.store.player = Some(Player { pos: Vec2 { x: 777, y: -5 } });
    g.store.enemies.push(Enemy { pos: Vec2 { x: 777, y: -5 } });
    g.update_enemy_transform();
    assert_eq!(g.store.enemies[0].pos, Vec2 { x: 777, y: -5 });
}

#[test]
fn spawn_fills_only_up_to_population_cap() {
    // 295 alive with a cap of 300 and a batch limit of 10: exactly 5 spawn.
    let mut g = Game::new();
    g.store.player = Some(Player { pos: Vec2 { x: 0, y: 0 } });
    for _ in 0..295 {
        g.store.enemies.push(Enemy { pos: Vec2 { x: 0, y: 0 } });
    }
    g.spawn_enemies();
    assert_eq!(g.store.enemies.len(), 300);
    for e in g.store.enemies.iter().skip(295) {
        assert!(-WORLD_W <= e.pos.x && e.pos.x <= WORLD_W);
        assert!(-WORLD_H <= e.pos.y && e.pos.y <= WORLD_H);
    }
}

#[test]
fn spawn_is_a_no_op_at_the_cap() {
    let mut g = Game::new();
    g.store.player = Some(Player { pos: Vec2 { x: 0, y: 0 } });
    for _ in 0..MAX_ENEMY_AMOUNT {
        g.store.enemies.push(Enemy { pos: Vec2 { x: 42, y: 42 } });
    }
    g.spawn_enemies();
    assert_eq!(g.store.enemies.len(), MAX_ENEMY_AMOUNT);
}

#[test]
fn spawn_is_a_no_op_without_a_player() {
    let mut g = Game::new();
    g.spawn_enemies();
    assert_eq!(g.store.enemies.len(), 0);
}

#[test]
fn spawn_batch_is_limited_per_wave() {
    let mut g = Game::new();
    g.store.player = Some(Player { pos: Vec2 { x: 0, y: 0 } });
    g.spawn_enemies();
    assert_eq!(g.store.enemies.len(), 10);
}

#[test]
fn camera_smooths_one_tenth_of_the_distance() {
    // Camera at the origin, player jumps to (100, 0): after one tick the
    // camera sits at (10, 0).
    let mut g = Game::new();
    g.store.player = Some(Player { pos: Vec2 { x: 100_000, y: 0 } });
    g.store.camera = Some(Camera { pos: Vec2 { x: 0, y: 0 } });
    g.camera_follow_player();
    let c = g.store.camera.unwrap();
    assert_eq!(c.pos.x, 10_000);
    assert_eq!(c.pos.y, 0);
}

#[test]
fn camera_without_player_is_a_no_op() {
    let mut g = Game::new();
    g.store.camera = Some(Camera { pos: Vec2 { x: 123, y: 456 } });
    g.camera_follow_player();
    assert_eq!(g.store.camera.unwrap().pos, Vec2 { x: 123, y: 456 });
}

#[test]
fn tick_runs_movement_before_camera() {
    // The camera reads the current tick's player position: starting
    // together at the origin, one tick of rightward movement leaves the
    // camera at a tenth of the *new* player position.
    let mut g = in_game();
    let mut input = idle_input();
    input.keyboard.key_d = true;
    g.tick(&input, 16_666);
    let p = g.store.player.unwrap();
    let c = g.store.camera.unwrap();
    assert_eq!(p.pos.x, 2000);
    assert_eq!(c.pos.x, 200);
}

#[test]
fn enemy_population_stays_capped_across_ticks() {
    let mut g = in_game();
    for _ in 0..MAX_ENEMY_AMOUNT + 50 {
        g.store.enemies.push(Enemy { pos: Vec2 { x: 9000, y: 9000 } });
        if g.store.enemies.len() >= MAX_ENEMY_AMOUNT {
            break;
        }
    }
    // A tick whose delta covers the whole spawn period triggers a wave.
    g.tick(&idle_input(), ENEMY_SPAWN_RATE);
    assert!(g.store.enemies.len() <= MAX_ENEMY_AMOUNT);
    assert_eq!(g.store.enemies.len(), MAX_ENEMY_AMOUNT);
}

#[test]
fn spawn_waves_follow_the_spawn_timer() {
    let mut g = in_game();
    // Half a period: no wave yet.
    g.tick(&idle_input(), ENEMY_SPAWN_RATE / 2);
    assert_eq!(g.store.enemies.len(), 0);
    // The second half completes the period: one wave of the batch limit.
    g.tick(&idle_input(), ENEMY_SPAWN_RATE / 2);
    assert_eq!(g.store.enemies.len(), 10);
}

#[test]
fn gun_position_tracks_player_after_movement() {
    let mut g = in_game();
    let mut input = idle_input();
    input.keyboard.key_d = true;
    input.cursor_world = Some(Vec2 { x: 1_000_000, y: 0 });
    g.tick(&input, 16_666);
    let p = g.store.player.unwrap();
    let gun = g.store.gun.unwrap();
    // Aim is computed from the moved player position.
    assert_eq!(p.pos.x, 2000);
    assert_eq!(gun.pos.x, p.pos.x + 50_000);
    assert_eq!(gun.pos.y, 0);
}
