//! World initialization and the per-tick pipeline.
//!
//! `tick` is the explicit ordered pipeline of one simulation step: input
//! mapping, then movement (player, bullets, enemies), then aim and fire,
//! then the periodic spawn wave, then the camera — the camera always reads
//! the current tick's player position.

use vstd::prelude::*;
use crate::vec2::{Vec2, clamp_spec, clamp_coord, moved_coord};
use crate::entities::{Game, GameState, state_rank, Player, Gun, Camera, Bullet, Decoration,
    CursorPosition, InputState};
use crate::constants::{MILLI, NUM_WORLD_DECORATIONS, WORLD_W, WORLD_H, DECORATION_SPRITE_MIN,
    DECORATION_SPRITE_MAX, ENEMY_SPAWN_RATE, MAX_ENEMY_AMOUNT};
use crate::rng::{fresh_rng, gen_range_i64};
use crate::player::{player_step_x, player_step_y, lerp_coord};
use crate::gun::{sat_add_u64, fire_ready, fire_timer_after};
use crate::bullet::{bullet_step_x, bullet_step_y};
use crate::enemy::spawn_batch;

verus! {

impl Game {
    /// Store the cursor point the input provider mapped into world space
    /// (or its absence), clamped into the coordinate range.
    pub fn update_cursor_position(&mut self, cursor: Option<Vec2>)
        ensures
            cursor.is_none() ==> final(self).cursor_position.0.is_none(),
            cursor matches Some(c) ==> final(self).cursor_position.0 matches Some(d)
                ==> d.x == clamp_spec(c.x as int) && d.y == clamp_spec(c.y as int),
            cursor.is_some() ==> final(self).cursor_position.0.is_some(),
            final(self).store == old(self).store,
            final(self).state == old(self).state,
            final(self).enemy_spawn_timer == old(self).enemy_spawn_timer,
            old(self).wf() ==> final(self).wf(),
    {
        match cursor {
            None => {
                self.cursor_position = CursorPosition(None);
            },
            Some(c) => {
                self.cursor_position = CursorPosition(
                    Some(Vec2 { x: clamp_coord(c.x), y: clamp_coord(c.y) }),
                );
            },
        }
    }

    /// Create the camera at the origin.
    pub fn setup_camera(&mut self)
        ensures
            final(self).store.camera matches Some(c) ==> c.pos.x == 0 && c.pos.y == 0,
            final(self).store.camera.is_some(),
            final(self).store.player == old(self).store.player,
            final(self).store.gun == old(self).store.gun,
            final(self).store.bullets == old(self).store.bullets,
            final(self).store.enemies == old(self).store.enemies,
            final(self).store.decorations == old(self).store.decorations,
            final(self).state == old(self).state,
            final(self).cursor_position.0 == old(self).cursor_position.0,
            final(self).enemy_spawn_timer == old(self).enemy_spawn_timer,
            old(self).wf() ==> final(self).wf(),
    {
        self.store.camera = Some(Camera { pos: Vec2 { x: 0, y: 0 } });
    }

    /// Scatter `NUM_WORLD_DECORATIONS` decorations uniformly at random in
    /// the world rectangle, each with a variant drawn uniformly from the
    /// decoration sprite range.  Existing entities are never touched.
    pub fn spawn_world_decoration(&mut self)
        requires
            old(self).wf(),
        ensures
            final(self).wf(),
            final(self).store.decorations.len() == old(self).store.decorations.len()
                + NUM_WORLD_DECORATIONS,
            forall|i: int| 0 <= i < old(self).store.decorations.len()
                ==> #[trigger] final(self).store.decorations[i]
                    == old(self).store.decorations[i],
            forall|i: int| old(self).store.decorations.len() <= i
                < final(self).store.decorations.len() ==> {
                &&& -WORLD_W <= (#[trigger] final(self).store.decorations[i]).pos.x <= WORLD_W
                &&& -WORLD_H <= final(self).store.decorations[i].pos.y <= WORLD_H
                &&& DECORATION_SPRITE_MIN <= final(self).store.decorations[i].sprite_index
                &&& final(self).store.decorations[i].sprite_index <= DECORATION_SPRITE_MAX
            },
            final(self).store.player == old(self).store.player,
            final(self).store.gun == old(self).store.gun,
            final(self).store.camera == old(self).store.camera,
            final(self).store.bullets == old(self).store.bullets,
            final(self).store.enemies == old(self).store.enemies,
            final(self).state == old(self).state,
            final(self).cursor_position.0 == old(self).cursor_position.0,
            final(self).enemy_spawn_timer == old(self).enemy_spawn_timer,
    {
        let num = self.store.decorations.len();
        let mut rng = fresh_rng();
        let mut i: usize = 0;
        while i < NUM_WORLD_DECORATIONS
            invariant
                old(self).wf(),
                num == old(self).store.decorations.len(),
                i <= NUM_WORLD_DECORATIONS,
                self.store.decorations.len() == num + i,
                forall|j: int| 0 <= j < num
                    ==> #[trigger] self.store.decorations[j]
                        == old(self).store.decorations[j],
                forall|j: int| num <= j < num + i ==> {
                    &&& -WORLD_W <= (#[trigger] self.store.decorations[j]).pos.x <= WORLD_W
                    &&& -WORLD_H <= self.store.decorations[j].pos.y <= WORLD_H
                    &&& DECORATION_SPRITE_MIN <= self.store.decorations[j].sprite_index
                    &&& self.store.decorations[j].sprite_index <= DECORATION_SPRITE_MAX
                },
                self.store.player == old(self).store.player,
                self.store.gun == old(self).store.gun,
                self.store.camera == old(self).store.camera,
                self.store.bullets == old(self).store.bullets,
                self.store.enemies == old(self).store.enemies,
                self.state == old(self).state,
                self.cursor_position.0 == old(self).cursor_position.0,
                self.enemy_spawn_timer == old(self).enemy_spawn_timer,
            decreases NUM_WORLD_DECORATIONS - i,
        {
            let x = gen_range_i64(&mut rng, -WORLD_W, WORLD_W);
            let y = gen_range_i64(&mut rng, -WORLD_H, WORLD_H);
            let s = gen_range_i64(
                &mut rng,
                DECORATION_SPRITE_MIN as i64,
                DECORATION_SPRITE_MAX as i64,
            );
            self.store.decorations.push(
                Decoration { pos: Vec2 { x, y }, sprite_index: s as usize },
            );
            i = i + 1;
        }
    }

    /// World initialization, run once on entering `GameInit`: set up the
    /// camera, scatter the decorations, create the player and the gun at
    /// the origin (the gun facing along positive x with a cold cooldown),
    /// and only then — both setup actions complete — enter `InGame`.
    /// A no-op in any other state.
    pub fn init_world(&mut self)
        requires
            old(self).wf(),
        ensures
            final(self).wf(),
            state_rank(final(self).state) >= state_rank(old(self).state),
            old(self).state != GameState::GameInit ==> *final(self) == *old(self),
            old(self).state == GameState::GameInit ==> {
                &&& final(self).state == GameState::InGame
                &&& final(self).store.player matches Some(p) && p.pos.x == 0 && p.pos.y == 0
                &&& final(self).store.gun matches Some(g) && g.pos.x == 0 && g.pos.y == 0
                    && g.aim.x == MILLI && g.aim.y == 0 && g.fire_timer == 0
                &&& final(self).store.camera matches Some(c) && c.pos.x == 0 && c.pos.y == 0
                &&& final(self).store.decorations.len()
                    == old(self).store.decorations.len() + NUM_WORLD_DECORATIONS
                &&& final(self).store.bullets == old(self).store.bullets
                &&& final(self).store.enemies == old(self).store.enemies
                &&& final(self).cursor_position.0 == old(self).cursor_position.0
                &&& final(self).enemy_spawn_timer == old(self).enemy_spawn_timer
            },
    {
        if !(self.state == GameState::GameInit) {
            return;
        }
        self.setup_camera();
        self.spawn_world_decoration();
        self.store.player = Some(Player { pos: Vec2 { x: 0, y: 0 } });
        self.store.gun = Some(
            Gun { pos: Vec2 { x: 0, y: 0 }, aim: Vec2 { x: MILLI, y: 0 }, fire_timer: 0 },
        );
        self.state = GameState::InGame;
    }

    /// One simulation step.
    ///
    /// In `Loading` nothing runs (the asset provider drives
    /// `assets_loaded`); in `GameInit` the world is initialized and play
    /// begins; in `InGame` the systems run in their fixed order — input
    /// mapping, player movement, bullet and enemy advancement, aiming,
    /// firing, the periodic spawn wave, and last the camera, which reads
    /// this tick's player position.
    pub fn tick(&mut self, input: &InputState, dt_micros: u64)
        requires
            old(self).wf(),
        ensures
            final(self).wf(),
            state_rank(final(self).state) >= state_rank(old(self).state),
            old(self).state == GameState::Loading ==> *final(self) == *old(self),
            old(self).state == GameState::GameInit ==> final(self).state == GameState::InGame,
            old(self).state == GameState::InGame ==> {
                &&& final(self).state == GameState::InGame
                &&& final(self).store.enemies.len() <= MAX_ENEMY_AMOUNT
                &&& input.cursor_world.is_none() ==> final(self).cursor_position.0.is_none()
                &&& old(self).store.player matches Some(p)
                    ==> final(self).store.player matches Some(q)
                    ==> q.pos.x == moved_coord(p.pos.x as int, player_step_x(input.keyboard))
                        && q.pos.y == moved_coord(p.pos.y as int, player_step_y(input.keyboard))
                &&& old(self).store.player.is_some() ==> final(self).store.player.is_some()
                &&& old(self).store.camera matches Some(c)
                    ==> final(self).store.camera matches Some(d)
                    ==> final(self).store.player matches Some(q)
                    ==> d.pos.x == lerp_coord(c.pos.x as int, q.pos.x as int)
                        && d.pos.y == lerp_coord(c.pos.y as int, q.pos.y as int)
                &&& old(self).store.gun matches Some(g) ==> {
                    &&& final(self).store.gun matches Some(h)
                    &&& h.fire_timer == fire_timer_after(
                        g.fire_timer as int,
                        dt_micros as int,
                        input.fire_button,
                    )
                    &&& fire_ready(g.fire_timer as int, dt_micros as int, input.fire_button)
                        ==> final(self).store.bullets.len()
                            == old(self).store.bullets.len() + 1
                            && final(self).store.bullets[old(self).store.bullets.len() as int]
                                == (Bullet { pos: h.pos, dir: h.aim })
                    &&& !fire_ready(g.fire_timer as int, dt_micros as int, input.fire_button)
                        ==> final(self).store.bullets.len() == old(self).store.bullets.len()
                }
                &&& ({
                    let wrapped = sat_add_u64(
                        old(self).enemy_spawn_timer as int,
                        dt_micros as int,
                    ) >= ENEMY_SPAWN_RATE;
                    &&& wrapped && old(self).store.enemies.len() < MAX_ENEMY_AMOUNT
                        ==> final(self).store.enemies.len()
                            == old(self).store.enemies.len()
                                + spawn_batch(old(self).store.enemies.len() as int)
                    &&& wrapped && old(self).store.enemies.len() >= MAX_ENEMY_AMOUNT
                        ==> final(self).store.enemies.len() == old(self).store.enemies.len()
                    &&& !wrapped
                        ==> final(self).store.enemies.len() == old(self).store.enemies.len()
                })
                &&& forall|i: int| 0 <= i < old(self).store.bullets.len() ==> {
                    &&& (#[trigger] final(self).store.bullets[i]).dir
                        == old(self).store.bullets[i].dir
                    &&& final(self).store.bullets[i].pos.x == moved_coord(
                        old(self).store.bullets[i].pos.x as int,
                        bullet_step_x(old(self).store.bullets[i]),
                    )
                    &&& final(self).store.bullets[i].pos.y == moved_coord(
                        old(self).store.bullets[i].pos.y as int,
                        bullet_step_y(old(self).store.bullets[i]),
                    )
                }
                &&& final(self).enemy_spawn_timer == (
                    if sat_add_u64(old(self).enemy_spawn_timer as int, dt_micros as int)
                        >= ENEMY_SPAWN_RATE {
                        sat_add_u64(old(self).enemy_spawn_timer as int, dt_micros as int)
                            % (ENEMY_SPAWN_RATE as int)
                    } else {
                        sat_add_u64(old(self).enemy_spawn_timer as int, dt_micros as int)
                    }
                )
                &&& final(self).store.decorations == old(self).store.decorations
            },
    {
        match self.state {
            GameState::Loading => {},
            GameState::GameInit => {
                self.init_world();
            },
            GameState::InGame => {
                self.update_cursor_position(input.cursor_world);
                self.handle_player_movement_input(&input.keyboard);
                self.update_bullets();
                self.update_enemy_transform();
                self.update_gun_transform();
                self.handle_player_fire_input(dt_micros, input.fire_button);
                let t = self.enemy_spawn_timer.saturating_add(dt_micros);
                if t >= ENEMY_SPAWN_RATE {
                    self.enemy_spawn_timer = t % ENEMY_SPAWN_RATE;
                    self.spawn_enemies();
                } else {
                    self.enemy_spawn_timer = t;
                }
                self.camera_follow_player();
            },
        }
    }
}

} // verus!
