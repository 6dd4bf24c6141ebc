//! The simulation: one player, its projectiles and the enemies, advanced one
//! tick at a time.
use vstd::prelude::*;

use crate::entity::{
    bullet_at, clamp_i32, enemy_from, fire_bullet, sat_add, sat_sub, spawn_enemy, Entity, Side,
    SpawnRoll, TextureId,
};
use crate::input::{key_down, InputState, KEY_DOWN, KEY_FIRE, KEY_LEFT, KEY_RIGHT, KEY_UP};
use crate::{
    MAX_ENEMIES, MAX_SPAWN_DELAY, PLAYER_HEALTH, PLAYER_SPEED, RELOAD_TICKS, SPAWN_BASE,
    VIEW_LEFT, VIEW_RIGHT,
};

verus! {

broadcast use vstd::seq_lib::group_seq_properties;

/// Everything the simulation owns.
pub struct Stage {
    pub player: Entity,
    pub bullets: Vec<Entity>,
    pub enemies: Vec<Entity>,
    /// Ticks until the next enemy may appear.
    pub spawn: u8,
    pub bullet_texture: TextureId,
    pub enemy_texture: TextureId,
}

/// Mathematical value of a [`Stage`]: its collections as sequences.
pub struct StageModel {
    pub player: Entity,
    pub bullets: Seq<Entity>,
    pub enemies: Seq<Entity>,
    pub spawn: u8,
    pub bullet_texture: TextureId,
    pub enemy_texture: TextureId,
}

impl View for Stage {
    type V = StageModel;

    open spec fn view(&self) -> StageModel {
        StageModel {
            player: self.player,
            bullets: self.bullets@,
            enemies: self.enemies@,
            spawn: self.spawn,
            bullet_texture: self.bullet_texture,
            enemy_texture: self.enemy_texture,
        }
    }
}

impl StageModel {
    /// The invariants that every tick keeps: the cooldown and the spawn
    /// countdown stay in range, the enemy count stays under its cap, and the
    /// player keeps its fixed speed.
    pub open spec fn wf(self) -> bool {
        &&& self.player.reload <= RELOAD_TICKS
        &&& self.spawn <= MAX_SPAWN_DELAY
        &&& self.enemies.len() <= MAX_ENEMIES
        &&& self.player.dx == PLAYER_SPEED
        &&& self.player.dy == PLAYER_SPEED
    }
}

/// A counter after one tick of decay: one less, but never below zero.
pub open spec fn decayed(c: u8) -> u8 {
    if c > 0 {
        (c - 1) as u8
    } else {
        0
    }
}

/// The player after one tick of movement under the held keys. Each held
/// direction applies on its own, so opposite keys cancel and diagonals are
/// not normalized.
pub open spec fn moved_player(p: Entity, keys: Map<u32, bool>) -> Entity {
    let y1 = if key_down(keys, KEY_UP) { clamp_i32(p.y - p.dy) } else { p.y as int };
    let y2 = if key_down(keys, KEY_DOWN) { clamp_i32(y1 + p.dy) } else { y1 };
    let x1 = if key_down(keys, KEY_LEFT) { clamp_i32(p.x - p.dx) } else { p.x as int };
    let x2 = if key_down(keys, KEY_RIGHT) { clamp_i32(x1 + p.dx) } else { x1 };
    Entity { x: x2 as i32, y: y2 as i32, ..p }
}

/// Whether a shot leaves this tick: fire is held and the cooldown has run out.
pub open spec fn fires(s: StageModel, keys: Map<u32, bool>) -> bool {
    key_down(keys, KEY_FIRE) && decayed(s.player.reload) == 0
}

/// Whether an enemy appears this tick: the countdown has run out and there is room.
pub open spec fn spawn_due(s: StageModel) -> bool {
    decayed(s.spawn) == 0 && s.enemies.len() < MAX_ENEMIES
}

/// Whether a projectile is still inside the viewport.
pub open spec fn bullet_alive(e: Entity) -> bool {
    e.x <= VIEW_RIGHT
}

/// Whether an enemy has not yet left through the leading edge.
pub open spec fn enemy_alive(e: Entity) -> bool {
    e.x >= VIEW_LEFT
}

/// Every projectile moved along its velocity.
pub open spec fn pushed_all(s: Seq<Entity>) -> Seq<Entity> {
    s.map_values(|e: Entity| e.pushed())
}

/// Every enemy moved against its velocity.
pub open spec fn pulled_all(s: Seq<Entity>) -> Seq<Entity> {
    s.map_values(|e: Entity| e.pulled())
}

/// Projectiles after one tick: moved, then those past the viewport dropped.
pub open spec fn advance_bullets(s: Seq<Entity>) -> Seq<Entity> {
    pushed_all(s).filter(|e: Entity| bullet_alive(e))
}

/// Enemies after one tick: moved, then those past the leading edge dropped.
pub open spec fn advance_enemies(s: Seq<Entity>) -> Seq<Entity> {
    pulled_all(s).filter(|e: Entity| enemy_alive(e))
}

/// The stage after one tick under the key map `keys`, with `roll` deciding an
/// enemy that spawns.
pub open spec fn step_model(s: StageModel, keys: Map<u32, bool>, roll: SpawnRoll) -> StageModel {
    let p = moved_player(s.player, keys);
    let fired = fires(s, keys);
    let spawned = spawn_due(s);
    let bullets = if fired {
        s.bullets.push(bullet_at(s.bullet_texture, p.x, p.y, Side::Player))
    } else {
        s.bullets
    };
    let enemies = if spawned {
        s.enemies.push(enemy_from(s.enemy_texture, roll))
    } else {
        s.enemies
    };
    StageModel {
        player: Entity {
            reload: if fired { RELOAD_TICKS } else { decayed(s.player.reload) },
            ..p
        },
        bullets: advance_bullets(bullets),
        enemies: advance_enemies(enemies),
        spawn: if spawned { (SPAWN_BASE + roll.delay) as u8 } else { decayed(s.spawn) },
        ..s
    }
}

/// The stage at start-up, with the player at `(width / 2, width / 2)`.
pub open spec fn initial_model(
    player_texture: TextureId,
    width: u32,
    bullet_texture: TextureId,
    enemy_texture: TextureId,
) -> StageModel {
    StageModel {
        player: Entity {
            x: (width / 2) as i32,
            y: (width / 2) as i32,
            dx: PLAYER_SPEED,
            dy: PLAYER_SPEED,
            health: PLAYER_HEALTH,
            side: Side::Player,
            reload: 0,
            texture: player_texture,
        },
        bullets: Seq::empty(),
        enemies: Seq::empty(),
        spawn: SPAWN_BASE,
        bullet_texture,
        enemy_texture,
    }
}

/// A new stage. The player image is `width` wide and the player starts with
/// both coordinates at half of it; no projectile or enemy exists yet.
pub fn init_stage(
    player_texture: TextureId,
    width: u32,
    bullet_texture: TextureId,
    enemy_texture: TextureId,
) -> (r: Stage)
    ensures
        r@ == initial_model(player_texture, width, bullet_texture, enemy_texture),
        r@.wf(),
{
    let half = (width / 2) as i32;
    Stage {
        player: Entity {
            x: half,
            y: half,
            dx: PLAYER_SPEED,
            dy: PLAYER_SPEED,
            health: PLAYER_HEALTH,
            side: Side::Player,
            reload: 0,
            texture: player_texture,
        },
        bullets: Vec::new(),
        enemies: Vec::new(),
        spawn: SPAWN_BASE,
        bullet_texture,
        enemy_texture,
    }
}

/// Moves every projectile one tick and keeps those still in the viewport, in order.
fn advance_bullet_list(v: &Vec<Entity>) -> (r: Vec<Entity>)
    ensures
        r@ == advance_bullets(v@),
{
    let mut out: Vec<Entity> = Vec::new();
    let mut i: usize = 0;
    while i < v.len()
        invariant
            i <= v.len(),
            out@ == advance_bullets(v@.take(i as int)),
        decreases v.len() - i,
    {
        let mut e = v[i];
        e.push_forward();
        if e.x <= VIEW_RIGHT {
            out.push(e);
        }
        proof {
            let pre = v@.take(i as int);
            assert(v@.take(i + 1) =~= pre.push(v@[i as int]));
            assert(pushed_all(pre.push(v@[i as int])) =~= pushed_all(pre).push(v@[i as int].pushed()));
            pushed_all(pre).lemma_filter_push(v@[i as int].pushed(), |e: Entity| bullet_alive(e));
        }
        i += 1;
    }
    assert(v@.take(v.len() as int) =~= v@);
    out
}

/// Moves every enemy one tick and keeps those not yet past the leading edge, in order.
fn advance_enemy_list(v: &Vec<Entity>) -> (r: Vec<Entity>)
    ensures
        r@ == advance_enemies(v@),
{
    let mut out: Vec<Entity> = Vec::new();
    let mut i: usize = 0;
    while i < v.len()
        invariant
            i <= v.len(),
            out@ == advance_enemies(v@.take(i as int)),
        decreases v.len() - i,
    {
        let mut e = v[i];
        e.pull_back();
        if e.x >= VIEW_LEFT {
            out.push(e);
        }
        proof {
            let pre = v@.take(i as int);
            assert(v@.take(i + 1) =~= pre.push(v@[i as int]));
            assert(pulled_all(pre.push(v@[i as int])) =~= pulled_all(pre).push(v@[i as int].pulled()));
            pulled_all(pre).lemma_filter_push(v@[i as int].pulled(), |e: Entity| enemy_alive(e));
        }
        i += 1;
    }
    assert(v@.take(v.len() as int) =~= v@);
    out
}


impl Stage {
    /// Advances the simulation by one tick under `input`, with `roll` deciding
    /// an enemy that spawns: cooldown decay, player movement, weapon fire, the
    /// spawn countdown, then projectile and enemy movement with removal of
    /// those that left the viewport.
    pub fn step(&mut self, input: &InputState, roll: &SpawnRoll)
        requires
            roll.valid(),
        ensures
            final(self)@ == step_model(old(self)@, input@, *roll),
            old(self)@.wf() ==> final(self)@.wf(),
    {
        let ghost s0 = self@;
        if self.player.reload > 0 {
            self.player.reload = self.player.reload - 1;
        }
        if input.is_down(KEY_UP) {
            self.player.y = sat_sub(self.player.y, self.player.dy);
        }
        if input.is_down(KEY_DOWN) {
            self.player.y = sat_add(self.player.y, self.player.dy);
        }
        if input.is_down(KEY_LEFT) {
            self.player.x = sat_sub(self.player.x, self.player.dx);
        }
        if input.is_down(KEY_RIGHT) {
            self.player.x = sat_add(self.player.x, self.player.dx);
        }
        if input.is_down(KEY_FIRE) && self.player.reload == 0 {
            self.player.reload = RELOAD_TICKS;
            let shot = fire_bullet(self.bullet_texture, self.player.x, self.player.y, Side::Player);
            self.bullets.push(shot);
        }
        if self.spawn > 0 {
            self.spawn = self.spawn - 1;
        }
        if self.spawn == 0 && self.enemies.len() < MAX_ENEMIES {
            self.spawn = SPAWN_BASE + roll.delay;
            let enemy = spawn_enemy(self.enemy_texture, roll);
            self.enemies.push(enemy);
        }
        self.bullets = advance_bullet_list(&self.bullets);
        self.enemies = advance_enemy_list(&self.enemies);
        proof {
            if s0.wf() {
                lemma_step_keeps_wf(s0, input@, *roll);
            }
        }
    }

    /// Advances the simulation by one tick under `input`, drawing the random
    /// choices of an enemy spawn from the thread's generator.
    pub fn tick(&mut self, input: &InputState)
        ensures
            exists|roll: SpawnRoll|
                roll.valid() && final(self)@ == step_model(old(self)@, input@, roll),
            old(self)@.wf() ==> final(self)@.wf(),
    {
        let roll = SpawnRoll::draw();
        self.step(input, &roll);
    }
}

/// Every tick keeps the stage invariants: the cooldown stays within
/// `[0, RELOAD_TICKS]`, the spawn countdown within `[0, MAX_SPAWN_DELAY]`, and
/// the enemy count at or below `MAX_ENEMIES`.
pub proof fn lemma_step_keeps_wf(s: StageModel, keys: Map<u32, bool>, roll: SpawnRoll)
    requires
        s.wf(),
        roll.valid(),
    ensures
        step_model(s, keys, roll).wf(),
{
    let enemies = if spawn_due(s) {
        s.enemies.push(enemy_from(s.enemy_texture, roll))
    } else {
        s.enemies
    };
    pulled_all(enemies).lemma_filter_len(|e: Entity| enemy_alive(e));
}


/// The stage after each tick of `ticks` in turn, every tick given by its key
/// map and its spawn roll.
pub open spec fn run_model(s: StageModel, ticks: Seq<(Map<u32, bool>, SpawnRoll)>) -> StageModel
    decreases ticks.len(),
{
    if ticks.len() == 0 {
        s
    } else {
        let (keys, roll) = ticks.last();
        step_model(run_model(s, ticks.drop_last()), keys, roll)
    }
}

/// However many ticks run, the cooldown stays within `[0, RELOAD_TICKS]` and
/// the enemy count never exceeds `MAX_ENEMIES`.
pub proof fn lemma_run_keeps_wf(s: StageModel, ticks: Seq<(Map<u32, bool>, SpawnRoll)>)
    requires
        s.wf(),
        forall|i: int| 0 <= i < ticks.len() ==> (#[trigger] ticks[i]).1.valid(),
    ensures
        run_model(s, ticks).wf(),
        run_model(s, ticks).player.reload <= RELOAD_TICKS,
        run_model(s, ticks).enemies.len() <= MAX_ENEMIES,
    decreases ticks.len(),
{
    if ticks.len() > 0 {
        let prefix = ticks.drop_last();
        assert forall|i: int| 0 <= i < prefix.len() implies (#[trigger] prefix[i]).1.valid() by {
            assert(prefix[i] == ticks[i]);
        }
        lemma_run_keeps_wf(s, prefix);
        let (keys, roll) = ticks.last();
        assert(ticks[ticks.len() - 1].1.valid());
        lemma_step_keeps_wf(run_model(s, prefix), keys, roll);
    }
}

/// Weapon fire: when fire is held and the cooldown left after this tick's
/// decay is 0, exactly one projectile is added at the player's new position
/// (it joins the others unless its first move already leaves the viewport)
/// and the cooldown restarts at `RELOAD_TICKS`. Otherwise no projectile is
/// added and the cooldown only decays.
pub proof fn lemma_fire(s: StageModel, keys: Map<u32, bool>, roll: SpawnRoll)
    ensures
        ({
            let r = step_model(s, keys, roll);
            let shot = bullet_at(s.bullet_texture, r.player.x, r.player.y, Side::Player);
            if key_down(keys, KEY_FIRE) && decayed(s.player.reload) == 0 {
                &&& r.player.reload == RELOAD_TICKS
                &&& r.bullets == if bullet_alive(shot.pushed()) {
                    advance_bullets(s.bullets).push(shot.pushed())
                } else {
                    advance_bullets(s.bullets)
                }
            } else {
                &&& r.player.reload == decayed(s.player.reload)
                &&& r.bullets == advance_bullets(s.bullets)
            }
        }),
{
    let r = step_model(s, keys, roll);
    let shot = bullet_at(s.bullet_texture, r.player.x, r.player.y, Side::Player);
    assert(pushed_all(s.bullets.push(shot)) =~= pushed_all(s.bullets).push(shot.pushed()));
    pushed_all(s.bullets).lemma_filter_push(shot.pushed(), |e: Entity| bullet_alive(e));
}

/// Holding Up and Left, and neither Down nor Right, moves the player by
/// `(-PLAYER_SPEED, -PLAYER_SPEED)` in one tick: diagonals are not normalized.
pub proof fn lemma_diagonal_move(s: StageModel, keys: Map<u32, bool>, roll: SpawnRoll)
    requires
        s.wf(),
        key_down(keys, KEY_UP),
        key_down(keys, KEY_LEFT),
        !key_down(keys, KEY_DOWN),
        !key_down(keys, KEY_RIGHT),
        s.player.x - PLAYER_SPEED >= i32::MIN,
        s.player.y - PLAYER_SPEED >= i32::MIN,
    ensures
        step_model(s, keys, roll).player.x == s.player.x - PLAYER_SPEED,
        step_model(s, keys, roll).player.y == s.player.y - PLAYER_SPEED,
{
}

/// The key that moves the player the opposite way along the same axis.
pub open spec fn opposite(key: u32) -> u32 {
    if key == KEY_UP {
        KEY_DOWN
    } else if key == KEY_DOWN {
        KEY_UP
    } else if key == KEY_LEFT {
        KEY_RIGHT
    } else {
        KEY_LEFT
    }
}

/// Once a direction key is released, the next tick leaves the player's
/// coordinate on that axis unchanged, provided the opposite key is not held:
/// there is no residual drift.
pub proof fn lemma_release_stops(s: StageModel, keys: Map<u32, bool>, key: u32, roll: SpawnRoll)
    requires
        key == KEY_UP || key == KEY_DOWN || key == KEY_LEFT || key == KEY_RIGHT,
        !key_down(keys, opposite(key)),
    ensures
        (key == KEY_UP || key == KEY_DOWN) ==> step_model(s, keys.insert(key, false), roll).player.y
            == s.player.y,
        (key == KEY_LEFT || key == KEY_RIGHT) ==> step_model(s, keys.insert(key, false), roll).player.x
            == s.player.x,
{
}


/// Filtering a one-element sequence keeps the element exactly when it passes.
proof fn lemma_filter_single(e: Entity, pred: spec_fn(Entity) -> bool)
    ensures
        seq![e].filter(pred) == if pred(e) { seq![e] } else { Seq::<Entity>::empty() },
{
    reveal(Seq::filter);
    assert(seq![e] =~= Seq::<Entity>::empty().push(e));
    Seq::<Entity>::empty().lemma_filter_push(e, pred);
    assert(Seq::<Entity>::empty().filter(pred) =~= Seq::<Entity>::empty());
}

/// Projectiles advance independently of one another: advancing a
/// concatenation advances each part on its own, in order.
pub proof fn lemma_advance_bullets_split(a: Seq<Entity>, b: Seq<Entity>)
    ensures
        advance_bullets(a + b) == advance_bullets(a) + advance_bullets(b),
{
    assert(pushed_all(a + b) =~= pushed_all(a) + pushed_all(b));
    Seq::filter_distributes_over_add(pushed_all(a), pushed_all(b), |e: Entity| bullet_alive(e));
}

/// Enemies advance independently of one another: advancing a concatenation
/// advances each part on its own, in order.
pub proof fn lemma_advance_enemies_split(a: Seq<Entity>, b: Seq<Entity>)
    ensures
        advance_enemies(a + b) == advance_enemies(a) + advance_enemies(b),
{
    assert(pulled_all(a + b) =~= pulled_all(a) + pulled_all(b));
    Seq::filter_distributes_over_add(pulled_all(a), pulled_all(b), |e: Entity| enemy_alive(e));
}

/// Projectiles after `k` ticks of advancing.
pub open spec fn bullets_after(s: Seq<Entity>, k: nat) -> Seq<Entity>
    decreases k,
{
    if k == 0 {
        s
    } else {
        advance_bullets(bullets_after(s, (k - 1) as nat))
    }
}

/// Enemies after `k` ticks of advancing.
pub open spec fn enemies_after(s: Seq<Entity>, k: nat) -> Seq<Entity>
    decreases k,
{
    if k == 0 {
        s
    } else {
        advance_enemies(enemies_after(s, (k - 1) as nat))
    }
}

/// Lifetime of a projectile: one inside the viewport with rightward speed
/// `dx` and no vertical speed is, after `k` ticks, at `x + k * dx` while that
/// is at most `VIEW_RIGHT`, and gone from the first tick that carries it
/// past the bound (from `x = 100`, `dx = 16`: present at 788 after 43 ticks,
/// gone after 44).
pub proof fn lemma_projectile_lifetime(b: Entity, k: nat)
    requires
        bullet_alive(b),
        0 < b.dx <= i32::MAX - VIEW_RIGHT,
        b.dy == 0,
    ensures
        bullets_after(seq![b], k) == if b.x + k * b.dx <= VIEW_RIGHT {
            seq![Entity { x: (b.x + k * b.dx) as i32, ..b }]
        } else {
            Seq::<Entity>::empty()
        },
    decreases k,
{
    if k == 0 {
        assert(Entity { x: (b.x + 0 * b.dx) as i32, ..b } == b);
    } else {
        let j = (k - 1) as nat;
        lemma_projectile_lifetime(b, j);
        assert(b.x + k * b.dx == b.x + j * b.dx + b.dx) by (nonlinear_arith)
            requires k == j + 1;
        assert(b.x + j * b.dx <= b.x + k * b.dx) by (nonlinear_arith)
            requires k == j + 1, b.dx > 0;
        let prev = bullets_after(seq![b], j);
        if b.x + j * b.dx <= VIEW_RIGHT {
            let cur = Entity { x: (b.x + j * b.dx) as i32, ..b };
            assert(pushed_all(seq![cur]) =~= seq![cur.pushed()]);
            lemma_filter_single(cur.pushed(), |e: Entity| bullet_alive(e));
            assert(cur.pushed() == Entity { x: (b.x + k * b.dx) as i32, ..b });
        } else {
            assert(pushed_all(prev) =~= Seq::<Entity>::empty());
            reveal(Seq::filter);
            assert(Seq::<Entity>::empty().filter(|e: Entity| bullet_alive(e)) =~= Seq::<Entity>::empty());
        }
    }
}

/// Lifetime of an enemy: one not yet past the leading edge, with leftward
/// speed `dx` and no vertical speed, is after `k` ticks at `x - k * dx` while
/// that is at least `VIEW_LEFT`, and gone from the first tick that carries it
/// below the bound (from `x = 720`, `dx = 4`: at -80 after 200 ticks, gone
/// after 201).
pub proof fn lemma_enemy_lifetime(e: Entity, k: nat)
    requires
        enemy_alive(e),
        0 < e.dx <= i32::MAX + VIEW_LEFT,
        e.dy == 0,
    ensures
        enemies_after(seq![e], k) == if e.x - k * e.dx >= VIEW_LEFT {
            seq![Entity { x: (e.x - k * e.dx) as i32, ..e }]
        } else {
            Seq::<Entity>::empty()
        },
    decreases k,
{
    if k == 0 {
        assert(Entity { x: (e.x - 0 * e.dx) as i32, ..e } == e);
    } else {
        let j = (k - 1) as nat;
        lemma_enemy_lifetime(e, j);
        assert(e.x - k * e.dx == e.x - j * e.dx - e.dx) by (nonlinear_arith)
            requires k == j + 1;
        assert(e.x - k * e.dx <= e.x - j * e.dx) by (nonlinear_arith)
            requires k == j + 1, e.dx > 0;
        let prev = enemies_after(seq![e], j);
        if e.x - j * e.dx >= VIEW_LEFT {
            let cur = Entity { x: (e.x - j * e.dx) as i32, ..e };
            assert(pulled_all(seq![cur]) =~= seq![cur.pulled()]);
            lemma_filter_single(cur.pulled(), |x: Entity| enemy_alive(x));
            assert(cur.pulled() == Entity { x: (e.x - k * e.dx) as i32, ..e });
        } else {
            assert(pulled_all(prev) =~= Seq::<Entity>::empty());
            reveal(Seq::filter);
            assert(Seq::<Entity>::empty().filter(|x: Entity| enemy_alive(x)) =~= Seq::<Entity>::empty());
        }
    }
}

/// One tick moves the player by `PLAYER_SPEED` along each held direction:
/// `x' = x - 4 * left + 4 * right` and `y' = y - 4 * up + 4 * down`, with
/// opposite keys cancelling and diagonals not normalized, while the player
/// stays clear of the `i32` bounds.
pub proof fn lemma_player_displacement(s: StageModel, keys: Map<u32, bool>, roll: SpawnRoll)
    requires
        s.wf(),
        i32::MIN + PLAYER_SPEED <= s.player.x <= i32::MAX - PLAYER_SPEED,
        i32::MIN + PLAYER_SPEED <= s.player.y <= i32::MAX - PLAYER_SPEED,
    ensures
        step_model(s, keys, roll).player.x == s.player.x
            - (if key_down(keys, KEY_LEFT) { PLAYER_SPEED } else { 0 })
            + (if key_down(keys, KEY_RIGHT) { PLAYER_SPEED } else { 0 }),
        step_model(s, keys, roll).player.y == s.player.y
            - (if key_down(keys, KEY_UP) { PLAYER_SPEED } else { 0 })
            + (if key_down(keys, KEY_DOWN) { PLAYER_SPEED } else { 0 }),
        step_model(s, keys, roll).player.dx == s.player.dx,
        step_model(s, keys, roll).player.dy == s.player.dy,
        step_model(s, keys, roll).player.health == s.player.health,
{
}

} // verus!
