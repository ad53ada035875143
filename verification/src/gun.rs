//! Weapon aiming and rate-limited firing.
//!
//! The gun orbits the player at a fixed radius, facing the cursor.  Its
//! cooldown timer accumulates elapsed time every tick regardless of input
//! and is reset only by a shot, so a shot comes at most once per
//! `BULLET_SPAWN_INTERVAL` — and, held continuously, exactly at that rate.

use vstd::prelude::*;
use vstd::arithmetic::div_mod::{
    lemma_basic_div, lemma_div_plus_one, lemma_fundamental_div_mod,
};
use crate::vec2::{Vec2, normalized_x, normalized_y, normalize_to, moved_coord, translate};
use crate::entities::{Game, Gun, Bullet};
use crate::constants::{MILLI, GUN_OFFSET_RADIUS, BULLET_SPAWN_INTERVAL, POS_LIMIT};

verus! {

/// The vector from the player position `p` to the cursor point `c`.
pub open spec fn aim_delta(p: Vec2, c: Vec2) -> Vec2 {
    Vec2 { x: (c.x - p.x) as i64, y: (c.y - p.y) as i64 }
}

/// The x coordinate where the aim update places the gun: the player
/// position offset by the radius along the cursor direction, saturating
/// at the coordinate range.
pub open spec fn gun_pos_x(p: Vec2, c: Vec2) -> int {
    moved_coord(p.x as int, normalized_x(aim_delta(p, c), GUN_OFFSET_RADIUS as int))
}

/// The y coordinate where the aim update places the gun.
pub open spec fn gun_pos_y(p: Vec2, c: Vec2) -> int {
    moved_coord(p.y as int, normalized_y(aim_delta(p, c), GUN_OFFSET_RADIUS as int))
}

/// `u64` addition saturating at the type's maximum.
pub open spec fn sat_add_u64(a: int, b: int) -> int {
    if a + b > u64::MAX {
        u64::MAX as int
    } else {
        a + b
    }
}

/// After a tick of `dt` microseconds, does the gun shoot?  The cooldown
/// must have accumulated at least the spawn interval and the trigger must
/// be held.
pub open spec fn fire_ready(timer: int, dt: int, pressed: bool) -> bool {
    pressed && sat_add_u64(timer, dt) >= BULLET_SPAWN_INTERVAL
}

/// The cooldown after a tick of `dt` microseconds: it keeps accumulating,
/// and only a shot resets it.
pub open spec fn fire_timer_after(timer: int, dt: int, pressed: bool) -> int {
    if fire_ready(timer, dt, pressed) {
        0
    } else {
        sat_add_u64(timer, dt)
    }
}

impl Game {
    /// Orient the gun toward the cursor: its aim becomes the unit-scale
    /// direction from the player to the cursor, and its position the
    /// player position offset by `GUN_OFFSET_RADIUS` along that direction.
    /// A no-op when the player, the gun or the cursor point is absent, or
    /// when the cursor sits exactly on the player (no direction exists):
    /// the gun keeps its previous frame's orientation and position.
    pub fn update_gun_transform(&mut self)
        requires
            old(self).wf(),
        ensures
            final(self).wf(),
            old(self).store.player.is_none() || old(self).store.gun.is_none()
                || old(self).cursor_position.0.is_none() ==> *final(self) == *old(self),
            old(self).store.player matches Some(p)
                ==> old(self).store.gun matches Some(g)
                ==> old(self).cursor_position.0 matches Some(c)
                ==> if aim_delta(p.pos, c) == (Vec2 { x: 0, y: 0 }) {
                    *final(self) == *old(self)
                } else {
                    &&& final(self).store.gun matches Some(h)
                    &&& h.aim.x == normalized_x(aim_delta(p.pos, c), MILLI as int)
                    &&& h.aim.y == normalized_y(aim_delta(p.pos, c), MILLI as int)
                    &&& h.pos.x == gun_pos_x(p.pos, c)
                    &&& h.pos.y == gun_pos_y(p.pos, c)
                    &&& h.fire_timer == g.fire_timer
                },
            final(self).store.player == old(self).store.player,
            final(self).store.camera == old(self).store.camera,
            final(self).store.bullets == old(self).store.bullets,
            final(self).store.enemies == old(self).store.enemies,
            final(self).store.decorations == old(self).store.decorations,
            final(self).state == old(self).state,
            final(self).cursor_position.0 == old(self).cursor_position.0,
            final(self).enemy_spawn_timer == old(self).enemy_spawn_timer,
    {
        if self.store.player.is_none() || self.store.gun.is_none() {
            return;
        }
        if self.cursor_position.0.is_none() {
            return;
        }
        let p = self.store.player.unwrap();
        let g = self.store.gun.unwrap();
        let c = self.cursor_position.0.unwrap();
        let delta = Vec2 { x: c.x - p.pos.x, y: c.y - p.pos.y };
        if delta.x == 0 && delta.y == 0 {
            return;
        }
        assert(delta.norm_sq() > 0) by (nonlinear_arith)
            requires
                delta.x != 0 || delta.y != 0,
        ;
        let aim = normalize_to(delta, MILLI);
        let offset = normalize_to(delta, GUN_OFFSET_RADIUS);
        let pos = translate(p.pos, offset);
        self.store.gun = Some(Gun { pos, aim, fire_timer: g.fire_timer });
    }

    /// Advance the gun's cooldown by `dt_micros` and, while the fire
    /// button is held and the cooldown has reached the spawn interval,
    /// shoot: append one bullet at the gun's position with the gun's
    /// current facing as its direction, and reset the cooldown.  The
    /// cooldown accumulates whether or not the button is held; a no-op
    /// when no gun exists.
    pub fn handle_player_fire_input(&mut self, dt_micros: u64, fire_pressed: bool)
        requires
            old(self).wf(),
        ensures
            final(self).wf(),
            old(self).store.gun.is_none() ==> *final(self) == *old(self),
            old(self).store.gun matches Some(g) ==> {
                &&& final(self).store.gun matches Some(h)
                &&& h.pos == g.pos
                &&& h.aim == g.aim
                &&& h.fire_timer == fire_timer_after(
                    g.fire_timer as int,
                    dt_micros as int,
                    fire_pressed,
                )
                &&& fire_ready(g.fire_timer as int, dt_micros as int, fire_pressed)
                    ==> final(self).store.bullets@ == old(self).store.bullets@.push(
                        (Bullet { pos: g.pos, dir: g.aim }),
                    )
                &&& !fire_ready(g.fire_timer as int, dt_micros as int, fire_pressed)
                    ==> final(self).store.bullets@ == old(self).store.bullets@
            },
            final(self).store.player == old(self).store.player,
            final(self).store.camera == old(self).store.camera,
            final(self).store.enemies == old(self).store.enemies,
            final(self).store.decorations == old(self).store.decorations,
            final(self).state == old(self).state,
            final(self).cursor_position.0 == old(self).cursor_position.0,
            final(self).enemy_spawn_timer == old(self).enemy_spawn_timer,
    {
        if self.store.gun.is_none() {
            return;
        }
        let g = self.store.gun.unwrap();
        let ticked = g.fire_timer.saturating_add(dt_micros);
        if !fire_pressed {
            self.store.gun = Some(Gun { pos: g.pos, aim: g.aim, fire_timer: ticked });
            return;
        }
        if ticked >= BULLET_SPAWN_INTERVAL {
            self.store.bullets.push(Bullet { pos: g.pos, dir: g.aim });
            self.store.gun = Some(Gun { pos: g.pos, aim: g.aim, fire_timer: 0 });
        } else {
            self.store.gun = Some(Gun { pos: g.pos, aim: g.aim, fire_timer: ticked });
        }
    }
}

/// Gun orbit law: with a cursor point available at least the offset
/// radius away from the player, and the player far enough from the
/// coordinate cap that the offset is not cut, the aim update places the
/// gun within 3 milli-units (0.003 world units) of the offset radius:
/// the squared gun-to-player distance lies strictly between
/// `(radius - 3)^2` and `(radius + 1)^2`.  On an axis-aligned aim the
/// distance is exactly the radius (`lemma_normalize_axis`).
pub proof fn lemma_gun_orbit_radius(p: Vec2, c: Vec2)
    requires
        p.in_range(POS_LIMIT - GUN_OFFSET_RADIUS as int),
        c.in_range(POS_LIMIT as int),
        aim_delta(p, c).norm_sq() >= GUN_OFFSET_RADIUS * GUN_OFFSET_RADIUS,
    ensures
        (gun_pos_x(p, c) - p.x) * (gun_pos_x(p, c) - p.x)
            + (gun_pos_y(p, c) - p.y) * (gun_pos_y(p, c) - p.y)
            <= GUN_OFFSET_RADIUS * GUN_OFFSET_RADIUS + 2 * GUN_OFFSET_RADIUS,
        (GUN_OFFSET_RADIUS - 3) * (GUN_OFFSET_RADIUS - 3)
            < (gun_pos_x(p, c) - p.x) * (gun_pos_x(p, c) - p.x)
            + (gun_pos_y(p, c) - p.y) * (gun_pos_y(p, c) - p.y),
{
    let d = aim_delta(p, c);
    let rad = GUN_OFFSET_RADIUS as int;
    assert(d.in_range(2_000_000_000));
    assert(rad * rad > 0) by (nonlinear_arith)
        requires
            rad == 50_000,
    ;
    crate::vec2::lemma_normalize_len_bounds(d, rad);
    crate::vec2::lemma_normalized_in_range(d, rad);
    let ox = normalized_x(d, rad);
    let oy = normalized_y(d, rad);
    assert(gun_pos_x(p, c) == p.x + ox);
    assert(gun_pos_y(p, c) == p.y + oy);
    assert(gun_pos_x(p, c) - p.x == ox && gun_pos_y(p, c) - p.y == oy);
    assert((gun_pos_x(p, c) - p.x) * (gun_pos_x(p, c) - p.x) == ox * ox) by (nonlinear_arith)
        requires
            gun_pos_x(p, c) - p.x == ox,
    ;
    assert((gun_pos_y(p, c) - p.y) * (gun_pos_y(p, c) - p.y) == oy * oy) by (nonlinear_arith)
        requires
            gun_pos_y(p, c) - p.y == oy,
    ;
}

/// How many shots a held trigger produces over a run of ticks whose
/// durations are `dts`, starting from cooldown `timer`.
pub open spec fn fire_run_count(timer: int, dts: Seq<u64>) -> int
    decreases dts.len(),
{
    if dts.len() == 0 {
        0
    } else {
        let t = sat_add_u64(timer, dts[0] as int);
        if t >= BULLET_SPAWN_INTERVAL {
            1 + fire_run_count(0, dts.drop_first())
        } else {
            fire_run_count(t, dts.drop_first())
        }
    }
}

/// Total duration of a run of ticks.
pub open spec fn sum_dts(dts: Seq<u64>) -> int
    decreases dts.len(),
{
    if dts.len() == 0 {
        0int
    } else {
        dts[0] + sum_dts(dts.drop_first())
    }
}

/// One tick of the run model is exactly one `handle_player_fire_input`
/// step with the trigger held: it shoots precisely when `fire_ready`
/// holds of the starting cooldown and the tick's duration.
pub proof fn lemma_fire_run_one_tick(timer: int, dt: u64)
    ensures
        fire_run_count(timer, seq![dt]) == if fire_ready(timer, dt as int, true) {
            1int
        } else {
            0int
        },
{
    let s = seq![dt];
    assert(s.len() == 1 && s[0] == dt);
    let rest = s.drop_first();
    assert(rest.len() == 0);
    assert(fire_run_count(0, rest) == 0);
    assert(fire_run_count(sat_add_u64(timer, dt as int), rest) == 0);
}

/// Steady-rate law, upper bound: over any run of ticks with the trigger
/// held, the shots never outpace one per spawn interval — the count never
/// exceeds `floor(total_time / interval)`.
pub proof fn lemma_fire_rate_upper_bound(timer: int, dts: Seq<u64>)
    requires
        0 <= timer,
    ensures
        BULLET_SPAWN_INTERVAL * fire_run_count(timer, dts) <= timer + sum_dts(dts),
    decreases dts.len(),
{
    let k = BULLET_SPAWN_INTERVAL as int;
    if dts.len() == 0 {
        assert(k * 0 == 0) by (nonlinear_arith);
    } else {
        let t = sat_add_u64(timer, dts[0] as int);
        let rest = dts.drop_first();
        if t >= k {
            lemma_fire_rate_upper_bound(0, rest);
            let c = fire_run_count(0, rest);
            assert(k * (1 + c) == k + k * c) by (nonlinear_arith);
        } else {
            lemma_fire_rate_upper_bound(t, rest);
        }
    }
}

/// Steady-rate law, exact form: held continuously over `n` ticks of equal
/// duration `d` that divides the spawn interval, a cooldown that starts
/// expired-at-zero produces exactly `floor(n * d / interval)` shots.
pub proof fn lemma_fire_steady_rate(d: u64, n: nat)
    requires
        0 < d,
        BULLET_SPAWN_INTERVAL as int % (d as int) == 0,
        n * d <= u64::MAX,
    ensures
        fire_run_count(0, Seq::new(n, |i: int| d))
            == (n * d) / (BULLET_SPAWN_INTERVAL as int),
{
    let k = BULLET_SPAWN_INTERVAL as int;
    lemma_fundamental_div_mod(k, d as int);
    let m = k / (d as int);
    assert(k == d * m);
    assert(0 < m) by (nonlinear_arith)
        requires
            k == d * m,
            0 < d,
            50_000 <= k,
    ;
    lemma_fire_steady_rate_gen(d, n, 0, m);
    assert(0 * (d as int) == 0) by (nonlinear_arith);
}

/// Generalization of the exact steady-rate law: starting from a cooldown
/// of `j` whole ticks (`j * d`, strictly below the interval `m * d`), the
/// run of `n` further ticks produces `floor((j * d + n * d) / interval)`
/// shots.
proof fn lemma_fire_steady_rate_gen(d: u64, n: nat, j: int, m: int)
    requires
        0 < d,
        0 < m,
        BULLET_SPAWN_INTERVAL as int == d * m,
        0 <= j < m,
        j * d + n * d <= u64::MAX,
    ensures
        fire_run_count(j * d, Seq::new(n, |i: int| d))
            == (j * d + n * d) / (BULLET_SPAWN_INTERVAL as int),
    decreases n,
{
    let k = BULLET_SPAWN_INTERVAL as int;
    let t = j * d;
    assert(0 <= t && t + d <= k) by (nonlinear_arith)
        requires
            0 <= j < m,
            0 < d,
            k == d * m,
            t == j * d,
    ;
    if n == 0 {
        let s = Seq::new(0nat, |i: int| d);
        assert(s.len() == 0);
        assert(fire_run_count(t, s) == 0);
        lemma_basic_div(t, k);
        assert(t + 0 * (d as int) == t) by (nonlinear_arith);
    } else {
        let s = Seq::new(n, |i: int| d);
        let rest = s.drop_first();
        assert(rest =~= Seq::new((n - 1) as nat, |i: int| d));
        assert(s[0] == d);
        assert(n * d == (n - 1) * d + d) by (nonlinear_arith);
        assert(sat_add_u64(t, d as int) == t + d);
        if t + d >= k {
            assert(t + d == k);
            assert((j + 1) * d == t + d) by (nonlinear_arith)
                requires
                    t == j * d,
            ;
            lemma_fire_steady_rate_gen(d, (n - 1) as nat, 0, m);
            assert(0 * (d as int) == 0) by (nonlinear_arith);
            assert(fire_run_count(t, s) == 1 + fire_run_count(0, rest));
            assert(fire_run_count(0, rest) == ((n - 1) * d) / k);
            lemma_div_plus_one(((n - 1) * d) as int, k);
            assert(t + n * d == k + (n - 1) * d) by (nonlinear_arith)
                requires
                    t + d == k,
                    n * d == (n - 1) * d + d,
            ;
        } else {
            assert((j + 1) * d == t + d) by (nonlinear_arith)
                requires
                    t == j * d,
            ;
            assert(j + 1 < m) by (nonlinear_arith)
                requires
                    t + d < k,
                    t == j * d,
                    k == d * m,
                    0 < d,
                    (j + 1) * d == t + d,
            ;
            lemma_fire_steady_rate_gen(d, (n - 1) as nat, j + 1, m);
            assert((j + 1) * d + (n - 1) * d == t + n * d) by (nonlinear_arith)
                requires
                    t == j * d,
                    n * d == (n - 1) * d + d,
            ;
            assert(fire_run_count(t, s) == fire_run_count(t + d, rest));
        }
    }
}

} // verus!
