//! Projectile advancement.
//!
//! A bullet's direction is fixed at creation; each tick the bullet moves
//! by that direction re-scaled to the bullet speed.  The re-scaling is
//! defensive — the direction is already unit-scale — and provably
//! idempotent (`lemma_normalize_idempotent`).

use vstd::prelude::*;
use crate::vec2::{Vec2, normalized_x, normalized_y, normalize_to, moved_coord, translate};
use crate::entities::{Game, Bullet};
use crate::constants::{BULLET_SPEED, POS_LIMIT};

verus! {

/// The x component of a bullet's displacement for one tick: its direction
/// scaled to the bullet speed, or zero for a degenerate zero direction.
pub open spec fn bullet_step_x(b: Bullet) -> int {
    if b.dir.x == 0 && b.dir.y == 0 {
        0
    } else {
        normalized_x(b.dir, BULLET_SPEED as int)
    }
}

/// The y component of a bullet's displacement for one tick.
pub open spec fn bullet_step_y(b: Bullet) -> int {
    if b.dir.x == 0 && b.dir.y == 0 {
        0
    } else {
        normalized_y(b.dir, BULLET_SPEED as int)
    }
}

impl Game {
    /// Advance every bullet one tick along its own direction; directions
    /// are never changed.
    pub fn update_bullets(&mut self)
        requires
            old(self).wf(),
        ensures
            final(self).wf(),
            final(self).store.bullets.len() == old(self).store.bullets.len(),
            forall|i: int| 0 <= i < old(self).store.bullets.len() ==> {
                &&& (#[trigger] final(self).store.bullets[i]).dir
                    == old(self).store.bullets[i].dir
                &&& final(self).store.bullets[i].pos.x == moved_coord(
                    old(self).store.bullets[i].pos.x as int,
                    bullet_step_x(old(self).store.bullets[i]),
                )
                &&& final(self).store.bullets[i].pos.y == moved_coord(
                    old(self).store.bullets[i].pos.y as int,
                    bullet_step_y(old(self).store.bullets[i]),
                )
            },
            final(self).store.player == old(self).store.player,
            final(self).store.gun == old(self).store.gun,
            final(self).store.camera == old(self).store.camera,
            final(self).store.enemies == old(self).store.enemies,
            final(self).store.decorations == old(self).store.decorations,
            final(self).state == old(self).state,
            final(self).cursor_position.0 == old(self).cursor_position.0,
            final(self).enemy_spawn_timer == old(self).enemy_spawn_timer,
    {
        let n = self.store.bullets.len();
        let mut i: usize = 0;
        while i < n
            invariant
                old(self).wf(),
                i <= n,
                n == old(self).store.bullets.len(),
                self.store.bullets.len() == n,
                forall|j: int| 0 <= j < i ==> {
                    &&& (#[trigger] self.store.bullets[j]).dir
                        == old(self).store.bullets[j].dir
                    &&& self.store.bullets[j].pos.x == moved_coord(
                        old(self).store.bullets[j].pos.x as int,
                        bullet_step_x(old(self).store.bullets[j]),
                    )
                    &&& self.store.bullets[j].pos.y == moved_coord(
                        old(self).store.bullets[j].pos.y as int,
                        bullet_step_y(old(self).store.bullets[j]),
                    )
                    &&& self.store.bullets[j].pos.in_range(POS_LIMIT as int)
                },
                forall|j: int| i <= j < n
                    ==> #[trigger] self.store.bullets[j] == old(self).store.bullets[j],
                self.store.player == old(self).store.player,
                self.store.gun == old(self).store.gun,
                self.store.camera == old(self).store.camera,
                self.store.enemies == old(self).store.enemies,
                self.store.decorations == old(self).store.decorations,
                self.state == old(self).state,
                self.cursor_position.0 == old(self).cursor_position.0,
                self.enemy_spawn_timer == old(self).enemy_spawn_timer,
            decreases n - i,
        {
            let b = self.store.bullets[i];
            assert(b == old(self).store.bullets[i as int]);
            if !(b.dir.x == 0 && b.dir.y == 0) {
                assert(b.dir.norm_sq() > 0) by (nonlinear_arith)
                    requires
                        b.dir.x != 0 || b.dir.y != 0,
                ;
                let step = normalize_to(b.dir, BULLET_SPEED);
                let nb = Bullet { pos: translate(b.pos, step), dir: b.dir };
                self.store.bullets.set(i, nb);
            }
            i = i + 1;
        }
    }
}

} // verus!
