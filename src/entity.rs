//! Entities of the simulation and the constructors that make them.
use rand::Rng;
use vstd::prelude::*;

use crate::{BULLET_SPEED, SPAWN_JITTER};

verus! {

/// Index of an image in the renderer's asset table; entities only borrow it.
#[derive(Clone, Copy, Debug, PartialEq, Eq, Structural)]
pub struct TextureId {
    pub index: usize,
}

/// Which side an entity fights for.
#[derive(Clone, Copy, Debug, PartialEq, Eq, Structural)]
pub enum Side {
    Player,
    Enemy,
}

/// Common kinematic shape of the player, projectiles and enemies.
#[derive(Clone, Copy, Debug, PartialEq, Eq, Structural)]
pub struct Entity {
    pub x: i32,
    pub y: i32,
    pub dx: i32,
    pub dy: i32,
    pub health: u8,
    pub side: Side,
    /// Ticks until the next shot may be fired (player only).
    pub reload: u8,
    pub texture: TextureId,
}

/// `v` held to the range of `i32`.
pub open spec fn clamp_i32(v: int) -> int {
    if v > i32::MAX {
        i32::MAX as int
    } else if v < i32::MIN {
        i32::MIN as int
    } else {
        v
    }
}

/// `a + b`, saturating at the bounds of `i32`.
pub fn sat_add(a: i32, b: i32) -> (r: i32)
    ensures
        r == clamp_i32(a + b),
{
    let s: i64 = a as i64 + b as i64;
    if s > i32::MAX as i64 {
        i32::MAX
    } else if s < i32::MIN as i64 {
        i32::MIN
    } else {
        s as i32
    }
}

/// `a - b`, saturating at the bounds of `i32`.
pub fn sat_sub(a: i32, b: i32) -> (r: i32)
    ensures
        r == clamp_i32(a - b),
{
    let s: i64 = a as i64 - b as i64;
    if s > i32::MAX as i64 {
        i32::MAX
    } else if s < i32::MIN as i64 {
        i32::MIN
    } else {
        s as i32
    }
}

impl Entity {
    /// The entity after one tick of moving along its velocity (projectiles).
    pub open spec fn pushed(self) -> Entity {
        Entity { x: clamp_i32(self.x + self.dx) as i32, y: clamp_i32(self.y + self.dy) as i32, ..self }
    }

    /// The entity after one tick of moving against its velocity (enemies).
    pub open spec fn pulled(self) -> Entity {
        Entity { x: clamp_i32(self.x - self.dx) as i32, y: clamp_i32(self.y - self.dy) as i32, ..self }
    }

    /// Moves the entity along its velocity for one tick.
    pub fn push_forward(&mut self)
        ensures
            *final(self) == old(self).pushed(),
    {
        self.x = sat_add(self.x, self.dx);
        self.y = sat_add(self.y, self.dy);
    }

    /// Moves the entity against its velocity for one tick.
    pub fn pull_back(&mut self)
        ensures
            *final(self) == old(self).pulled(),
    {
        self.x = sat_sub(self.x, self.dx);
        self.y = sat_sub(self.y, self.dy);
    }
}

/// The projectile that a shot from `(x, y)` creates.
pub open spec fn bullet_at(texture: TextureId, x: i32, y: i32, side: Side) -> Entity {
    Entity { x, y, dx: BULLET_SPEED, dy: 0, health: 1, side, reload: 0, texture }
}

/// A projectile fired from `(x, y)`, flying right at the fixed projectile speed.
pub fn fire_bullet(texture: TextureId, x: i32, y: i32, side: Side) -> (r: Entity)
    ensures
        r == bullet_at(texture, x, y, side),
{
    Entity { x, y, dx: BULLET_SPEED, dy: 0, health: 1, side, reload: 0, texture }
}

/// The random choices behind one enemy spawn.
#[derive(Clone, Copy, Debug, PartialEq, Eq, Structural)]
pub struct SpawnRoll {
    /// Horizontal spawn position, in `[700, 750)`.
    pub x: i32,
    /// Vertical spawn position, in `[100, 500)`.
    pub y: i32,
    /// Leftward speed, in `[3, 5)`.
    pub speed: i32,
    /// Extra ticks added to the spawn countdown, in `[0, SPAWN_JITTER)`.
    pub delay: u8,
}

impl SpawnRoll {
    /// Every field lies in its range.
    pub open spec fn valid(self) -> bool {
        &&& 700 <= self.x < 750
        &&& 100 <= self.y < 500
        &&& 3 <= self.speed < 5
        &&& self.delay < SPAWN_JITTER
    }

    /// Draws each field uniformly from its range.
    pub fn draw() -> (r: SpawnRoll)
        ensures
            r.valid(),
    {
        let x = random_range(700, 750);
        let y = random_range(100, 500);
        let speed = random_range(3, 5);
        let delay = random_range(0, SPAWN_JITTER as i32);
        SpawnRoll { x, y, speed, delay: delay as u8 }
    }
}

/// Relies on rand's `thread_rng().gen_range(low, high)`: a value in `[low, high)`;
/// it panics when `low >= high`.
#[verifier::external_body]
fn random_range(low: i32, high: i32) -> (r: i32)
    requires
        low < high,
    ensures
        low <= r < high,
{
    rand::thread_rng().gen_range(low, high)
}

/// The enemy that `roll` describes.
pub open spec fn enemy_from(texture: TextureId, roll: SpawnRoll) -> Entity {
    Entity {
        x: roll.x,
        y: roll.y,
        dx: roll.speed,
        dy: 0,
        health: 1,
        side: Side::Enemy,
        reload: 0,
        texture,
    }
}

/// An enemy placed and paced by `roll`, drifting left.
pub fn spawn_enemy(texture: TextureId, roll: &SpawnRoll) -> (r: Entity)
    ensures
        r == enemy_from(texture, *roll),
{
    Entity {
        x: roll.x,
        y: roll.y,
        dx: roll.speed,
        dy: 0,
        health: 1,
        side: Side::Enemy,
        reload: 0,
        texture,
    }
}

/// Where an image of the given size is drawn so that it is centred on an entity.
#[derive(Clone, Copy, Debug, PartialEq, Eq, Structural)]
pub struct Placement {
    pub x: i32,
    pub y: i32,
    pub width: u32,
    pub height: u32,
}

/// The rectangle of a `width` by `height` image centred on `e`, its corner
/// saturating at the bounds of `i32`.
pub fn dest_rect(e: &Entity, width: u32, height: u32) -> (r: Placement)
    ensures
        r.x == clamp_i32(e.x - width / 2),
        r.y == clamp_i32(e.y - height / 2),
        r.width == width,
        r.height == height,
{
    let x = sat_sub(e.x, (width / 2) as i32);
    let y = sat_sub(e.y, (height / 2) as i32);
    Placement { x, y, width, height }
}

} // verus!
