//! Player movement and camera tracking.
//!
//! Movement resolves the eight bound keys into a per-axis intent in
//! {-1, 0, 1}, scales the intent to the player speed — normalizing first
//! only when both axes are active, so diagonal motion is capped at the
//! same magnitude as axis motion — and adds it to the player position.
//! The camera follows the player by per-tick exponential smoothing.

use vstd::prelude::*;
use crate::vec2::{Vec2, normalized_x, normalized_y, moved_coord, translate, normalize_to,
    is_isqrt, isqrt_spec, lemma_isqrt, lemma_isqrt_unique};
use crate::entities::{Game, KeyboardState, Camera, Player};
use crate::constants::{MILLI, PLAYER_SPEED, POS_LIMIT, CAMERA_SMOOTHING_DENOM};

verus! {

/// The upward binding: W or the up arrow.
pub open spec fn up_pressed(k: KeyboardState) -> bool {
    k.key_w || k.arrow_up
}

/// The downward binding: S or the down arrow.
pub open spec fn down_pressed(k: KeyboardState) -> bool {
    k.key_s || k.arrow_down
}

/// The rightward binding: D or the right arrow.
pub open spec fn right_pressed(k: KeyboardState) -> bool {
    k.key_d || k.arrow_right
}

/// The leftward binding: A or the left arrow.
pub open spec fn left_pressed(k: KeyboardState) -> bool {
    k.key_a || k.arrow_left
}

/// Horizontal movement intent: -1, 0 or 1.
pub open spec fn axis_x(k: KeyboardState) -> int {
    (if right_pressed(k) { 1int } else { 0int }) - (if left_pressed(k) { 1int } else { 0int })
}

/// Vertical movement intent: -1, 0 or 1.
pub open spec fn axis_y(k: KeyboardState) -> int {
    (if up_pressed(k) { 1int } else { 0int }) - (if down_pressed(k) { 1int } else { 0int })
}

/// The intent vector in milli-units, before scaling to the player speed.
pub open spec fn movement_intent(k: KeyboardState) -> Vec2 {
    Vec2 { x: (axis_x(k) * MILLI as int) as i64, y: (axis_y(k) * MILLI as int) as i64 }
}

/// The x component of the player's displacement for one tick: the intent
/// is normalized to the player speed only when both axes are active.
pub open spec fn player_step_x(k: KeyboardState) -> int {
    if axis_x(k) != 0 && axis_y(k) != 0 {
        normalized_x(movement_intent(k), PLAYER_SPEED as int)
    } else {
        axis_x(k) * PLAYER_SPEED as int
    }
}

/// The y component of the player's displacement for one tick.
pub open spec fn player_step_y(k: KeyboardState) -> int {
    if axis_x(k) != 0 && axis_y(k) != 0 {
        normalized_y(movement_intent(k), PLAYER_SPEED as int)
    } else {
        axis_y(k) * PLAYER_SPEED as int
    }
}

/// Truncated (toward-zero) division, as the camera step uses it.
pub open spec fn div_trunc(a: int, d: int) -> int {
    if a >= 0 {
        a / d
    } else {
        -((-a) / d)
    }
}

/// Where a camera coordinate lands after one smoothing step toward the
/// player coordinate `p`.
pub open spec fn lerp_coord(c: int, p: int) -> int {
    c + div_trunc(p - c, CAMERA_SMOOTHING_DENOM as int)
}

/// The camera never overshoots: each smoothing step lands between the
/// camera's old coordinate and the player's.
pub proof fn lemma_camera_never_overshoots(c: int, p: int)
    ensures
        c <= p ==> c <= lerp_coord(c, p) <= p,
        p <= c ==> p <= lerp_coord(c, p) <= c,
{
    let d = p - c;
    if d >= 0 {
        assert(0 <= d / 10 <= d) by (nonlinear_arith)
            requires
                0 <= d,
        ;
    } else {
        assert(0 <= (-d) / 10 <= -d) by (nonlinear_arith)
            requires
                0 <= -d,
        ;
    }
    assert(CAMERA_SMOOTHING_DENOM == 10);
}

/// One smoothing step of a single camera coordinate toward `p`.  The
/// result never overshoots: it stays between `c` and `p`.
fn lerp_step(c: i64, p: i64) -> (r: i64)
    requires
        -POS_LIMIT <= c <= POS_LIMIT,
        -POS_LIMIT <= p <= POS_LIMIT,
    ensures
        r == lerp_coord(c as int, p as int),
        c <= p ==> c <= r <= p,
        p <= c ==> p <= r <= c,
{
    let d = p - c;
    let step: i64 = if d >= 0 {
        ((d as u64) / 10) as i64
    } else {
        -((((-d) as u64) / 10) as i64)
    };
    c + step
}

impl Game {
    /// Resolve the held movement keys into a displacement and apply it to
    /// the player.  A no-op when no player exists.
    pub fn handle_player_movement_input(&mut self, keyboard: &KeyboardState)
        requires
            old(self).wf(),
        ensures
            final(self).wf(),
            old(self).store.player.is_none() ==> *final(self) == *old(self),
            old(self).store.player matches Some(p) ==> {
                &&& final(self).store.player matches Some(q)
                &&& q.pos.x == moved_coord(p.pos.x as int, player_step_x(*keyboard))
                &&& q.pos.y == moved_coord(p.pos.y as int, player_step_y(*keyboard))
            },
            final(self).store.gun == old(self).store.gun,
            final(self).store.camera == old(self).store.camera,
            final(self).store.bullets == old(self).store.bullets,
            final(self).store.enemies == old(self).store.enemies,
            final(self).store.decorations == old(self).store.decorations,
            final(self).state == old(self).state,
            final(self).cursor_position.0 == old(self).cursor_position.0,
            final(self).enemy_spawn_timer == old(self).enemy_spawn_timer,
    {
        if self.store.player.is_none() {
            return;
        }
        let p = self.store.player.unwrap();
        let up = keyboard.key_w || keyboard.arrow_up;
        let down = keyboard.key_s || keyboard.arrow_down;
        let right = keyboard.key_d || keyboard.arrow_right;
        let left = keyboard.key_a || keyboard.arrow_left;
        let mut ax: i64 = 0;
        let mut ay: i64 = 0;
        if up {
            ay = ay + 1;
        }
        if down {
            ay = ay - 1;
        }
        if right {
            ax = ax + 1;
        }
        if left {
            ax = ax - 1;
        }
        assert(ax as int == axis_x(*keyboard));
        assert(ay as int == axis_y(*keyboard));
        let step: Vec2 = if ax != 0 && ay != 0 {
            let intent = Vec2 { x: ax * MILLI, y: ay * MILLI };
            assert(intent == movement_intent(*keyboard));
            assert(intent.norm_sq() > 0) by (nonlinear_arith)
                requires
                    intent.x == 1000 || intent.x == -1000,
                    intent.y == 1000 || intent.y == -1000,
            ;
            normalize_to(intent, PLAYER_SPEED)
        } else {
            Vec2 { x: ax * PLAYER_SPEED, y: ay * PLAYER_SPEED }
        };
        self.store.player = Some(Player { pos: translate(p.pos, step) });
    }

    /// Move the camera one smoothing step toward the player.  A no-op when
    /// either the camera or the player is absent.
    pub fn camera_follow_player(&mut self)
        requires
            old(self).wf(),
        ensures
            final(self).wf(),
            old(self).store.player.is_none() || old(self).store.camera.is_none()
                ==> *final(self) == *old(self),
            old(self).store.player matches Some(p)
                ==> old(self).store.camera matches Some(c) ==> {
                    &&& final(self).store.camera matches Some(d)
                    &&& d.pos.x == lerp_coord(c.pos.x as int, p.pos.x as int)
                    &&& d.pos.y == lerp_coord(c.pos.y as int, p.pos.y as int)
                },
            final(self).store.player == old(self).store.player,
            final(self).store.gun == old(self).store.gun,
            final(self).store.bullets == old(self).store.bullets,
            final(self).store.enemies == old(self).store.enemies,
            final(self).store.decorations == old(self).store.decorations,
            final(self).state == old(self).state,
            final(self).cursor_position.0 == old(self).cursor_position.0,
            final(self).enemy_spawn_timer == old(self).enemy_spawn_timer,
    {
        if self.store.player.is_none() || self.store.camera.is_none() {
            return;
        }
        let p = self.store.player.unwrap();
        let c = self.store.camera.unwrap();
        let nx = lerp_step(c.pos.x, p.pos.x);
        let ny = lerp_step(c.pos.y, p.pos.y);
        self.store.camera = Some(Camera { pos: Vec2 { x: nx, y: ny } });
    }
}

/// Diagonal normalization law: the displacement magnitude equals the
/// player speed exactly when one axis is active, and when both axes are
/// active each component is the largest integer whose diagonal magnitude
/// does not exceed the player speed — never `speed * sqrt(2)`.
pub proof fn lemma_player_step_magnitude(k: KeyboardState)
    ensures
        axis_x(k) == 0 && axis_y(k) == 0 ==> player_step_x(k) == 0 && player_step_y(k) == 0,
        axis_x(k) != 0 && axis_y(k) == 0 ==> player_step_x(k) * player_step_x(k)
            + player_step_y(k) * player_step_y(k) == PLAYER_SPEED * PLAYER_SPEED,
        axis_x(k) == 0 && axis_y(k) != 0 ==> player_step_x(k) * player_step_x(k)
            + player_step_y(k) * player_step_y(k) == PLAYER_SPEED * PLAYER_SPEED,
        axis_x(k) != 0 && axis_y(k) != 0 ==> player_step_x(k) == axis_x(k) * 1414
            && player_step_y(k) == axis_y(k) * 1414,
        2 * (1414 * 1414) <= PLAYER_SPEED * PLAYER_SPEED,
        PLAYER_SPEED * PLAYER_SPEED < 2 * (1415 * 1415),
{
    let sx = axis_x(k);
    let sy = axis_y(k);
    assert(-1 <= sx <= 1 && -1 <= sy <= 1);
    if sx != 0 && sy == 0 {
        assert(player_step_x(k) * player_step_x(k) + player_step_y(k) * player_step_y(k)
            == PLAYER_SPEED * PLAYER_SPEED) by (nonlinear_arith)
            requires
                player_step_x(k) == axis_x(k) * (PLAYER_SPEED as int),
                player_step_y(k) == axis_y(k) * (PLAYER_SPEED as int),
                axis_x(k) == 1 || axis_x(k) == -1,
                axis_y(k) == 0,
                PLAYER_SPEED == 2000,
        ;
    }
    if sx == 0 && sy != 0 {
        assert(player_step_x(k) * player_step_x(k) + player_step_y(k) * player_step_y(k)
            == PLAYER_SPEED * PLAYER_SPEED) by (nonlinear_arith)
            requires
                player_step_x(k) == axis_x(k) * (PLAYER_SPEED as int),
                player_step_y(k) == axis_y(k) * (PLAYER_SPEED as int),
                axis_y(k) == 1 || axis_y(k) == -1,
                axis_x(k) == 0,
                PLAYER_SPEED == 2000,
        ;
    }
    if sx != 0 && sy != 0 {
        let v = movement_intent(k);
        assert(v.x == 1000 * sx && v.y == 1000 * sy);
        assert(v.norm_sq() == 2_000_000) by (nonlinear_arith)
            requires
                v.x == 1000 || v.x == -1000,
                v.y == 1000 || v.y == -1000,
        ;
        assert(is_isqrt(2_000_000, 1414)) by (nonlinear_arith);
        lemma_isqrt(2_000_000);
        lemma_isqrt_unique(2_000_000, isqrt_spec(2_000_000), 1414);
        assert(isqrt_spec(v.norm_sq()) == 1414);
        assert((1000int * 2000int) / 1414int == 1414int);
        assert(player_step_x(k) == sx * 1414);
        assert(player_step_y(k) == sy * 1414);
    }
    assert(2 * (1414 * 1414) <= PLAYER_SPEED * PLAYER_SPEED
        && PLAYER_SPEED * PLAYER_SPEED < 2 * (1415 * 1415)) by (nonlinear_arith)
        requires
            PLAYER_SPEED == 2000,
    ;
}

} // verus!
