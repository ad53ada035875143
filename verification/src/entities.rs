//! The entity store, the input snapshot, and the game lifecycle.
//!
//! `Game` bundles the lifecycle state, the entity store, the stored cursor
//! point and the adversary spawn timer; the per-tick systems are methods on
//! it, spread over the sibling modules.

use vstd::prelude::*;
use crate::vec2::Vec2;
use crate::constants::{
    POS_LIMIT, MILLI, MAX_ENEMY_AMOUNT, DECORATION_SPRITE_MIN, DECORATION_SPRITE_MAX,
};

verus! {

/// Coarse phase of the application; transitions only move forward.
#[derive(Clone, Copy, PartialEq, Eq, Structural, Debug)]
pub enum GameState {
    Loading,
    GameInit,
    InGame,
}

/// Position of a state in the forward-only lifecycle order.
pub open spec fn state_rank(s: GameState) -> int {
    match s {
        GameState::Loading => 0,
        GameState::GameInit => 1,
        GameState::InGame => 2,
    }
}

/// The player avatar.
#[derive(Clone, Copy, PartialEq, Eq, Structural, Debug)]
pub struct Player {
    pub pos: Vec2,
}

/// The weapon: orbits the player at a fixed radius, facing the cursor.
/// `aim` is the facing direction scaled to magnitude `MILLI`;
/// `fire_timer` is the elapsed time in microseconds since the last shot.
#[derive(Clone, Copy, PartialEq, Eq, Structural, Debug)]
pub struct Gun {
    pub pos: Vec2,
    pub aim: Vec2,
    pub fire_timer: u64,
}

/// A projectile; `dir` is fixed at creation.
#[derive(Clone, Copy, PartialEq, Eq, Structural, Debug)]
pub struct Bullet {
    pub pos: Vec2,
    pub dir: Vec2,
}

/// An adversary that chases the player.
#[derive(Clone, Copy, PartialEq, Eq, Structural, Debug)]
pub struct Enemy {
    pub pos: Vec2,
}

/// A static decoration scattered once at world initialization.
#[derive(Clone, Copy, PartialEq, Eq, Structural, Debug)]
pub struct Decoration {
    pub pos: Vec2,
    pub sprite_index: usize,
}

/// The camera; follows the player by exponential smoothing.
#[derive(Clone, Copy, PartialEq, Eq, Structural, Debug)]
pub struct Camera {
    pub pos: Vec2,
}

/// The cursor mapped into world space; `None` when no window or camera can
/// provide one.
#[derive(Clone, Copy, Debug)]
pub struct CursorPosition(pub Option<Vec2>);

/// Current state of the eight bound movement keys.
#[derive(Clone, Copy, Debug)]
pub struct KeyboardState {
    pub key_w: bool,
    pub key_a: bool,
    pub key_s: bool,
    pub key_d: bool,
    pub arrow_up: bool,
    pub arrow_down: bool,
    pub arrow_left: bool,
    pub arrow_right: bool,
}

/// Everything the input provider hands the core for one tick.
#[derive(Clone, Copy, Debug)]
pub struct InputState {
    pub keyboard: KeyboardState,
    pub fire_button: bool,
    pub cursor_world: Option<Vec2>,
}

/// The authoritative collection of live entities.
pub struct EntityStore {
    pub player: Option<Player>,
    pub gun: Option<Gun>,
    pub camera: Option<Camera>,
    pub bullets: Vec<Bullet>,
    pub enemies: Vec<Enemy>,
    pub decorations: Vec<Decoration>,
}

impl EntityStore {
    /// Well-formedness: every position is in the coordinate range, bullet
    /// directions and the gun's aim are unit-scale vectors, and the enemy
    /// population respects its cap.
    pub open spec fn wf(self) -> bool {
        &&& (self.player matches Some(p) ==> p.pos.in_range(POS_LIMIT as int))
        &&& (self.gun matches Some(g) ==> g.pos.in_range(POS_LIMIT as int)
            && g.aim.in_range(MILLI as int))
        &&& (self.camera matches Some(c) ==> c.pos.in_range(POS_LIMIT as int))
        &&& (forall|i: int| 0 <= i < self.bullets.len()
            ==> (#[trigger] self.bullets[i]).pos.in_range(POS_LIMIT as int)
                && self.bullets[i].dir.in_range(MILLI as int))
        &&& (forall|i: int| 0 <= i < self.enemies.len()
            ==> (#[trigger] self.enemies[i]).pos.in_range(POS_LIMIT as int))
        &&& self.enemies.len() <= MAX_ENEMY_AMOUNT
        &&& (forall|i: int| 0 <= i < self.decorations.len()
            ==> (#[trigger] self.decorations[i]).pos.in_range(POS_LIMIT as int)
                && DECORATION_SPRITE_MIN <= self.decorations[i].sprite_index
                && self.decorations[i].sprite_index <= DECORATION_SPRITE_MAX)
    }

    pub fn new() -> (s: EntityStore)
        ensures
            s.player.is_none(),
            s.gun.is_none(),
            s.camera.is_none(),
            s.bullets@ =~= Seq::<Bullet>::empty(),
            s.enemies@ =~= Seq::<Enemy>::empty(),
            s.decorations@ =~= Seq::<Decoration>::empty(),
            s.wf(),
    {
        EntityStore {
            player: None,
            gun: None,
            camera: None,
            bullets: Vec::new(),
            enemies: Vec::new(),
            decorations: Vec::new(),
        }
    }
}

/// The whole simulation: lifecycle state, entities, stored cursor point and
/// the adversary spawn timer (microseconds since the last spawn wave).
pub struct Game {
    pub state: GameState,
    pub store: EntityStore,
    pub cursor_position: CursorPosition,
    pub enemy_spawn_timer: u64,
}

impl Game {
    /// Well-formedness of the whole simulation: the store is well formed,
    /// the stored cursor point is in the coordinate range, and while
    /// `InGame` the three singleton entities exist.
    pub open spec fn wf(self) -> bool {
        &&& self.store.wf()
        &&& (self.cursor_position.0 matches Some(c) ==> c.in_range(POS_LIMIT as int))
        &&& (self.state == GameState::InGame ==> self.store.player.is_some()
            && self.store.gun.is_some() && self.store.camera.is_some())
    }

    /// A fresh simulation, waiting for assets.
    pub fn new() -> (g: Game)
        ensures
            g.state == GameState::Loading,
            g.store.player.is_none(),
            g.store.gun.is_none(),
            g.store.camera.is_none(),
            g.store.bullets@ =~= Seq::<Bullet>::empty(),
            g.store.enemies@ =~= Seq::<Enemy>::empty(),
            g.store.decorations@ =~= Seq::<Decoration>::empty(),
            g.cursor_position.0.is_none(),
            g.enemy_spawn_timer == 0,
            g.wf(),
    {
        Game {
            state: GameState::Loading,
            store: EntityStore::new(),
            cursor_position: CursorPosition(None),
            enemy_spawn_timer: 0,
        }
    }

    /// The asset provider signals that acquisition finished: leave
    /// `Loading` for `GameInit`.  In any other state this is a no-op, so
    /// the lifecycle can only move forward.
    pub fn assets_loaded(&mut self)
        ensures
            old(self).state == GameState::Loading ==> final(self).state == GameState::GameInit,
            old(self).state != GameState::Loading ==> final(self).state == old(self).state,
            final(self).store == old(self).store,
            final(self).cursor_position.0 == old(self).cursor_position.0,
            final(self).enemy_spawn_timer == old(self).enemy_spawn_timer,
            state_rank(final(self).state) >= state_rank(old(self).state),
            old(self).wf() ==> final(self).wf(),
    {
        if matches!(self.state, GameState::Loading) {
            self.state = GameState::GameInit;
        }
    }
}

} // verus!
