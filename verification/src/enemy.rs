//! Adversaries: unconditional chase toward the player, and periodic
//! spawning under a population cap.

use vstd::prelude::*;
use crate::vec2::{Vec2, normalized_x, normalized_y, normalize_to, moved_coord, translate};
use crate::entities::{Game, Enemy};
use crate::constants::{ENEMY_SPEED, MAX_ENEMY_AMOUNT, ENEMY_SPAWN_BATCH_LIMIT, WORLD_W, WORLD_H,
    POS_LIMIT};
use crate::rng::{fresh_rng, gen_range_i64};

verus! {

/// The vector from an enemy at `e` to the player at `p`.
pub open spec fn chase_delta(e: Vec2, p: Vec2) -> Vec2 {
    Vec2 { x: (p.x - e.x) as i64, y: (p.y - e.y) as i64 }
}

/// The x component of an enemy's displacement for one tick: the direction
/// to the player scaled to the enemy speed, or zero when the enemy sits
/// exactly on the player (no direction exists).
pub open spec fn chase_step_x(e: Vec2, p: Vec2) -> int {
    if p.x == e.x && p.y == e.y {
        0
    } else {
        normalized_x(chase_delta(e, p), ENEMY_SPEED as int)
    }
}

/// The y component of an enemy's displacement for one tick.
pub open spec fn chase_step_y(e: Vec2, p: Vec2) -> int {
    if p.x == e.x && p.y == e.y {
        0
    } else {
        normalized_y(chase_delta(e, p), ENEMY_SPEED as int)
    }
}

/// How many enemies one spawn wave adds when `len` are alive: the deficit
/// to the population cap, but never more than the batch limit.
pub open spec fn spawn_batch(len: int) -> int {
    if MAX_ENEMY_AMOUNT - len < ENEMY_SPAWN_BATCH_LIMIT {
        MAX_ENEMY_AMOUNT - len
    } else {
        ENEMY_SPAWN_BATCH_LIMIT as int
    }
}

/// Chase exactness on an axis-aligned pursuit: an enemy level with the
/// player closes in by exactly the enemy speed along that axis.
pub proof fn lemma_chase_axis_is_exact(e: Vec2, p: Vec2)
    requires
        e.in_range(POS_LIMIT as int),
        p.in_range(POS_LIMIT as int),
        e.y == p.y,
        e.x != p.x,
    ensures
        chase_step_x(e, p) == if p.x > e.x { ENEMY_SPEED as int } else { -(ENEMY_SPEED as int) },
        chase_step_y(e, p) == 0,
{
    let d = chase_delta(e, p);
    assert(d.norm_sq() > 0) by (nonlinear_arith)
        requires
            d.x != 0,
            d.y == 0,
    ;
    crate::vec2::lemma_normalize_axis(d, ENEMY_SPEED as int);
}

impl Game {
    /// Move every enemy one tick toward the player.  A no-op when no
    /// player exists; an enemy exactly at the player position stays put
    /// for the tick.
    pub fn update_enemy_transform(&mut self)
        requires
            old(self).wf(),
        ensures
            final(self).wf(),
            old(self).store.player.is_none() ==> *final(self) == *old(self),
            old(self).store.player matches Some(p) ==> {
                &&& final(self).store.enemies.len() == old(self).store.enemies.len()
                &&& forall|i: int| 0 <= i < old(self).store.enemies.len() ==> {
                    &&& (#[trigger] final(self).store.enemies[i]).pos.x == moved_coord(
                        old(self).store.enemies[i].pos.x as int,
                        chase_step_x(old(self).store.enemies[i].pos, p.pos),
                    )
                    &&& final(self).store.enemies[i].pos.y == moved_coord(
                        old(self).store.enemies[i].pos.y as int,
                        chase_step_y(old(self).store.enemies[i].pos, p.pos),
                    )
                }
            },
            final(self).store.player == old(self).store.player,
            final(self).store.gun == old(self).store.gun,
            final(self).store.camera == old(self).store.camera,
            final(self).store.bullets == old(self).store.bullets,
            final(self).store.decorations == old(self).store.decorations,
            final(self).state == old(self).state,
            final(self).cursor_position.0 == old(self).cursor_position.0,
            final(self).enemy_spawn_timer == old(self).enemy_spawn_timer,
    {
        if self.store.player.is_none() || self.store.enemies.len() == 0 {
            return;
        }
        let p = self.store.player.unwrap();
        let n = self.store.enemies.len();
        let mut i: usize = 0;
        while i < n
            invariant
                old(self).wf(),
                old(self).store.player == Some(p),
                i <= n,
                n == old(self).store.enemies.len(),
                self.store.enemies.len() == n,
                forall|j: int| 0 <= j < i ==> {
                    &&& (#[trigger] self.store.enemies[j]).pos.x == moved_coord(
                        old(self).store.enemies[j].pos.x as int,
                        chase_step_x(old(self).store.enemies[j].pos, p.pos),
                    )
                    &&& self.store.enemies[j].pos.y == moved_coord(
                        old(self).store.enemies[j].pos.y as int,
                        chase_step_y(old(self).store.enemies[j].pos, p.pos),
                    )
                    &&& self.store.enemies[j].pos.in_range(POS_LIMIT as int)
                },
                forall|j: int| i <= j < n
                    ==> #[trigger] self.store.enemies[j] == old(self).store.enemies[j],
                self.store.player == old(self).store.player,
                self.store.gun == old(self).store.gun,
                self.store.camera == old(self).store.camera,
                self.store.bullets == old(self).store.bullets,
                self.store.decorations == old(self).store.decorations,
                self.state == old(self).state,
                self.cursor_position.0 == old(self).cursor_position.0,
                self.enemy_spawn_timer == old(self).enemy_spawn_timer,
            decreases n - i,
        {
            let e = self.store.enemies[i];
            assert(e == old(self).store.enemies[i as int]);
            let delta = Vec2 { x: p.pos.x - e.pos.x, y: p.pos.y - e.pos.y };
            if !(delta.x == 0 && delta.y == 0) {
                assert(delta.norm_sq() > 0) by (nonlinear_arith)
                    requires
                        delta.x != 0 || delta.y != 0,
                ;
                let step = normalize_to(delta, ENEMY_SPEED);
                let ne = Enemy { pos: translate(e.pos, step) };
                self.store.enemies.set(i, ne);
            }
            i = i + 1;
        }
    }

    /// One spawn wave: while a player exists and the population is under
    /// its cap, add `min(cap - population, batch limit)` enemies, each at
    /// a uniformly random position in the world rectangle.  Skips entirely
    /// at the cap or without a player; existing enemies are never touched,
    /// and the cap is never exceeded.
    pub fn spawn_enemies(&mut self)
        requires
            old(self).wf(),
        ensures
            final(self).wf(),
            old(self).store.player.is_none()
                || old(self).store.enemies.len() >= MAX_ENEMY_AMOUNT
                ==> *final(self) == *old(self),
            old(self).store.player.is_some() && old(self).store.enemies.len() < MAX_ENEMY_AMOUNT
                ==> {
                    &&& final(self).store.enemies.len() == old(self).store.enemies.len()
                        + spawn_batch(old(self).store.enemies.len() as int)
                    &&& forall|i: int| 0 <= i < old(self).store.enemies.len()
                        ==> #[trigger] final(self).store.enemies[i]
                            == old(self).store.enemies[i]
                    &&& forall|i: int| old(self).store.enemies.len() <= i
                        < final(self).store.enemies.len() ==> {
                        &&& -WORLD_W <= (#[trigger] final(self).store.enemies[i]).pos.x
                            <= WORLD_W
                        &&& -WORLD_H <= final(self).store.enemies[i].pos.y <= WORLD_H
                    }
                },
            final(self).store.enemies.len() <= MAX_ENEMY_AMOUNT,
            final(self).store.player == old(self).store.player,
            final(self).store.gun == old(self).store.gun,
            final(self).store.camera == old(self).store.camera,
            final(self).store.bullets == old(self).store.bullets,
            final(self).store.decorations == old(self).store.decorations,
            final(self).state == old(self).state,
            final(self).cursor_position.0 == old(self).cursor_position.0,
            final(self).enemy_spawn_timer == old(self).enemy_spawn_timer,
    {
        let num = self.store.enemies.len();
        let deficit = MAX_ENEMY_AMOUNT - num;
        let count = if deficit < ENEMY_SPAWN_BATCH_LIMIT {
            deficit
        } else {
            ENEMY_SPAWN_BATCH_LIMIT
        };
        if num >= MAX_ENEMY_AMOUNT || self.store.player.is_none() {
            return;
        }
        let mut rng = fresh_rng();
        let mut i: usize = 0;
        while i < count
            invariant
                old(self).wf(),
                old(self).store.player.is_some(),
                num == old(self).store.enemies.len(),
                num < MAX_ENEMY_AMOUNT,
                count == spawn_batch(num as int),
                i <= count,
                self.store.enemies.len() == num + i,
                forall|j: int| 0 <= j < num
                    ==> #[trigger] self.store.enemies[j] == old(self).store.enemies[j],
                forall|j: int| num <= j < num + i ==> {
                    &&& -WORLD_W <= (#[trigger] self.store.enemies[j]).pos.x <= WORLD_W
                    &&& -WORLD_H <= self.store.enemies[j].pos.y <= WORLD_H
                },
                self.store.player == old(self).store.player,
                self.store.gun == old(self).store.gun,
                self.store.camera == old(self).store.camera,
                self.store.bullets == old(self).store.bullets,
                self.store.decorations == old(self).store.decorations,
                self.state == old(self).state,
                self.cursor_position.0 == old(self).cursor_position.0,
                self.enemy_spawn_timer == old(self).enemy_spawn_timer,
            decreases count - i,
        {
            let x = gen_range_i64(&mut rng, -WORLD_W, WORLD_W);
            let y = gen_range_i64(&mut rng, -WORLD_H, WORLD_H);
            self.store.enemies.push(Enemy { pos: Vec2 { x, y } });
            i = i + 1;
        }
    }
}

} // verus!
