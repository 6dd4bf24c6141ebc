//! Simulation core of a small top-down shooter: keyboard state, the player,
//! projectiles and enemies, advanced one fixed tick at a time.
use vstd::prelude::*;

pub mod entity;
pub mod input;
pub mod stage;

verus! {

/// Ticks the player must wait after a shot before the next one.
pub const RELOAD_TICKS: u8 = 8;

/// Units per tick that the player moves along each axis.
pub const PLAYER_SPEED: i32 = 4;

/// Life count the player starts with.
pub const PLAYER_HEALTH: u8 = 3;

/// Rightward units per tick of a projectile.
pub const BULLET_SPEED: i32 = 16;

/// A projectile whose `x` exceeds this bound has left the viewport.
pub const VIEW_RIGHT: i32 = 800;

/// An enemy whose `x` is below this bound has left the viewport.
pub const VIEW_LEFT: i32 = -80;

/// Most enemies alive at once.
pub const MAX_ENEMIES: usize = 5;

/// Spawn countdown at the start of a stage, and the least it is reset to.
pub const SPAWN_BASE: u8 = 30;

/// Width of the randomized part of the spawn countdown.
pub const SPAWN_JITTER: u8 = 30;

/// Largest value the spawn countdown ever holds.
pub const MAX_SPAWN_DELAY: u8 = 59;

} // verus!
